//! Editing sessions: the configuration being edited, the one last loaded
//! or saved (to tell whether there are unsaved changes), the undo history,
//! and what each edit, undo, redo, load and save does to them.
//!
//! An edit records the configuration as it was before the edit as the
//! history's newest state; undo and redo move through the history and
//! make its current state the edited configuration.

use vstd::prelude::*;
use crate::ini::parser::spec_parse_ini;
use crate::ini::serializer::doc_text;
use crate::ini::{parse_ini, serialize_ini, DocV};
use crate::models::klassy::config::{
    is_klassy_doc, klassy_from_sections, klassy_set, lemma_klassy_get_after_set, nested, KlassyConfig, KlassyModel,
};
use crate::models::kvantum::config::{from_sections, is_config_doc, ConfigModel, KvantumConfig};
use crate::models::kvantum::section::{KvantumSection, SectionModel};
use crate::services::kvantum_themes::KvantumThemeData;
use crate::svg::{set_fill_color, set_stroke_color};
use crate::ui_bindings::{target_texts, Binding};
use crate::undo_redo::{spec_push, spec_redo, spec_undo, History, UndoRedoStack};

verus! {

broadcast use vstd::string::group_string_axioms;

/// A configuration that can be copied and compared by content.
pub trait Snapshot: View + Sized {
    /// A copy with the same content.
    fn snapshot(&self) -> (r: Self)
        ensures
            r@ == self@,
    ;

    /// Whether two configurations have the same content.
    fn same_content(&self, other: &Self) -> (r: bool)
        ensures
            r == (self@ == other@),
    ;
}

/// The top-level pages of the editor.
#[derive(Clone, Copy, Debug, PartialEq, Eq, Structural)]
pub enum Page {
    Home,
    Klassy,
    Kvantum,
    Settings,
}

/// The abstract state of a session, over the contents of the
/// configurations.
pub struct SessionV<M> {
    pub config: Option<M>,
    pub original: Option<M>,
    pub history: Option<History<M>>,
    pub loading: bool,
    pub error: Option<Seq<char>>,
}

/// The contents of a history of configurations.
pub open spec fn history_view<C: View>(h: History<C>) -> History<C::V> {
    History {
        past: h.past.map_values(|c: C| c@),
        current: h.current@,
        future: h.future.map_values(|c: C| c@),
    }
}

/// The content of an optional configuration.
pub open spec fn opt_view<C: View>(o: Option<C>) -> Option<C::V> {
    match o {
        Some(c) => Some(c@),
        None => None,
    }
}

/// The text of an optional message.
pub open spec fn opt_text(o: Option<String>) -> Option<Seq<char>> {
    match o {
        Some(s) => Some(s@),
        None => None,
    }
}

/// An editing session over configurations of type `C`.
pub struct EditSession<C> {
    /// The configuration being edited.
    pub config: Option<C>,
    /// The configuration as last loaded or saved.
    pub original: Option<C>,
    /// The undo history.
    pub undo: Option<UndoRedoStack<C>>,
    /// Whether a load is under way.
    pub loading: bool,
    /// The last error to show.
    pub error: Option<String>,
}

impl<C: Snapshot> View for EditSession<C> {
    type V = SessionV<C::V>;

    open spec fn view(&self) -> SessionV<C::V> {
        SessionV {
            config: opt_view(self.config),
            original: opt_view(self.original),
            history: match self.undo {
                Some(u) => Some(history_view(u@)),
                None => None,
            },
            loading: self.loading,
            error: opt_text(self.error),
        }
    }
}

/// Whether the edited configuration differs from the one last loaded or
/// saved.
pub open spec fn session_dirty<M>(s: SessionV<M>) -> bool {
    match (s.config, s.original) {
        (Some(c), Some(o)) => c != o,
        _ => false,
    }
}

/// The session after a load began.
pub open spec fn session_begin_load<M>(s: SessionV<M>) -> SessionV<M> {
    SessionV { loading: true, error: None, ..s }
}

/// The session after a load failed with `e`.
pub open spec fn session_load_failed<M>(s: SessionV<M>, e: Seq<char>) -> SessionV<M> {
    SessionV { loading: false, error: Some(e), ..s }
}

/// The session after `c` was loaded: it is both the edited and the
/// original configuration, and the history starts over with it.
pub open spec fn session_loaded<M>(c: M) -> SessionV<M> {
    SessionV {
        config: Some(c),
        original: Some(c),
        history: Some(History { past: Seq::empty(), current: c, future: Seq::empty() }),
        loading: false,
        error: None,
    }
}

/// The session after an edit that turns the configuration into `c`: the
/// configuration before the edit is recorded in the history.
pub open spec fn session_edit<M>(s: SessionV<M>, c: M) -> SessionV<M> {
    match s.config {
        Some(old) => SessionV {
            config: Some(c),
            history: match s.history {
                Some(h) => Some(spec_push(h, old)),
                None => None,
            },
            ..s
        },
        None => s,
    }
}

/// The session after an edit that turns the configuration into `c` and
/// records the edited configuration itself in the history.
pub open spec fn session_edit_new<M>(s: SessionV<M>, c: M) -> SessionV<M> {
    match s.config {
        Some(_) => SessionV {
            config: Some(c),
            history: match s.history {
                Some(h) => Some(spec_push(h, c)),
                None => None,
            },
            ..s
        },
        None => s,
    }
}

/// The session after undo: one step back in the history, which becomes
/// the edited configuration (unchanged when there is nothing to undo).
pub open spec fn session_undo<M>(s: SessionV<M>) -> SessionV<M> {
    match s.history {
        Some(h) => if h.past.len() > 0 {
            SessionV { config: Some(h.past.last()), history: Some(spec_undo(h)), ..s }
        } else {
            s
        },
        None => s,
    }
}

/// The session after redo: one step forward in the history, which
/// becomes the edited configuration (unchanged when there is nothing to
/// redo).
pub open spec fn session_redo<M>(s: SessionV<M>) -> SessionV<M> {
    match s.history {
        Some(h) => if h.future.len() > 0 {
            SessionV { config: Some(h.future.last()), history: Some(spec_redo(h)), ..s }
        } else {
            s
        },
        None => s,
    }
}

/// The session after a save succeeded: the edited configuration is the
/// saved one.
pub open spec fn session_saved<M>(s: SessionV<M>) -> SessionV<M> {
    SessionV { original: s.config, ..s }
}

/// The session showing the error `e`.
pub open spec fn session_error<M>(s: SessionV<M>, e: Seq<char>) -> SessionV<M> {
    SessionV { error: Some(e), ..s }
}

proof fn lemma_history_push<C: View>(h: History<C>, c: C)
    ensures
        history_view(spec_push(h, c)) == spec_push(history_view(h), c@),
{
    assert(history_view(spec_push(h, c)).past =~= history_view(h).past.push(h.current@));
    assert(history_view(spec_push(h, c)).future =~= Seq::<C::V>::empty());
}

proof fn lemma_history_undo<C: View>(h: History<C>)
    requires
        h.past.len() > 0,
    ensures
        history_view(spec_undo(h)) == spec_undo(history_view(h)),
        history_view(h).past.last() == h.past.last()@,
{
    assert(history_view(spec_undo(h)).past =~= history_view(h).past.drop_last());
    assert(history_view(spec_undo(h)).future =~= history_view(h).future.push(h.current@));
}

proof fn lemma_history_redo<C: View>(h: History<C>)
    requires
        h.future.len() > 0,
    ensures
        history_view(spec_redo(h)) == spec_redo(history_view(h)),
        history_view(h).future.last() == h.future.last()@,
{
    assert(history_view(spec_redo(h)).past =~= history_view(h).past.push(h.current@));
    assert(history_view(spec_redo(h)).future =~= history_view(h).future.drop_last());
}

impl<C: Snapshot> EditSession<C> {
    /// The state of a session with nothing loaded.
    pub open spec fn new_view() -> SessionV<C::V> {
        SessionV { config: None, original: None, history: None, loading: false, error: None }
    }

    /// A session with nothing loaded.
    pub fn new() -> (s: Self)
        ensures
            s@ == Self::new_view(),
    {
        EditSession { config: None, original: None, undo: None, loading: false, error: None }
    }

    /// A load began.
    pub fn begin_load(&mut self)
        ensures
            final(self)@ == session_begin_load(old(self)@),
    {
        self.loading = true;
        self.error = None;
    }

    /// A load failed with `e`.
    pub fn load_failed(&mut self, e: String)
        ensures
            final(self)@ == session_load_failed(old(self)@, e@),
    {
        self.loading = false;
        self.error = Some(e);
    }

    /// `c` was loaded.
    pub fn loaded(&mut self, c: C)
        ensures
            final(self)@ == session_loaded(c@),
    {
        self.original = Some(c.snapshot());
        self.undo = Some(UndoRedoStack::new(c.snapshot()));
        self.config = Some(c);
        self.loading = false;
        self.error = None;
        proof {
            let h = self.undo.unwrap()@;
            assert(history_view(h).past =~= Seq::<C::V>::empty());
            assert(history_view(h).future =~= Seq::<C::V>::empty());
        }
    }

    /// An edit turned the configuration into `c` (nothing happens when no
    /// configuration is loaded).
    pub fn edit(&mut self, c: C)
        ensures
            final(self)@ == session_edit(old(self)@, c@),
    {
        let old_config = self.config.take();
        match old_config {
            Some(old) => {
                let mut undo = self.undo.take();
                match undo {
                    Some(mut u) => {
                        proof {
                            lemma_history_push(u@, old);
                        }
                        u.push(old);
                        self.undo = Some(u);
                    },
                    None => {
                        self.undo = None;
                    },
                }
                self.config = Some(c);
            },
            None => {
                self.config = None;
            },
        }
    }

    /// An edit turned the configuration into `c`, which is recorded in the
    /// history as it is (nothing happens when no configuration is loaded).
    pub fn edit_recording_new(&mut self, c: C)
        ensures
            final(self)@ == session_edit_new(old(self)@, c@),
    {
        if self.config.is_some() {
            let mut undo = self.undo.take();
            match undo {
                Some(mut u) => {
                    let copy = c.snapshot();
                    proof {
                        lemma_history_push(u@, copy);
                    }
                    u.push(copy);
                    self.undo = Some(u);
                },
                None => {
                    self.undo = None;
                },
            }
            self.config = Some(c);
        }
    }

    /// Undo one step; whether there was one.
    pub fn undo(&mut self) -> (stepped: bool)
        ensures
            final(self)@ == session_undo(old(self)@),
            stepped == (old(self)@.history matches Some(h) && h.past.len() > 0),
    {
        let taken = self.undo.take();
        match taken {
            Some(mut u) => {
                let ghost h = u@;
                proof {
                    if h.past.len() > 0 {
                        lemma_history_undo(h);
                    }
                }
                let restored = match u.undo() {
                    Some(prev) => Some(prev.snapshot()),
                    None => None,
                };
                self.undo = Some(u);
                match restored {
                    Some(c) => {
                        self.config = Some(c);
                        true
                    },
                    None => false,
                }
            },
            None => {
                self.undo = None;
                false
            },
        }
    }

    /// Redo one step; whether there was one.
    pub fn redo(&mut self) -> (stepped: bool)
        ensures
            final(self)@ == session_redo(old(self)@),
            stepped == (old(self)@.history matches Some(h) && h.future.len() > 0),
    {
        let taken = self.undo.take();
        match taken {
            Some(mut u) => {
                let ghost h = u@;
                proof {
                    if h.future.len() > 0 {
                        lemma_history_redo(h);
                    }
                }
                let restored = match u.redo() {
                    Some(next) => Some(next.snapshot()),
                    None => None,
                };
                self.undo = Some(u);
                match restored {
                    Some(c) => {
                        self.config = Some(c);
                        true
                    },
                    None => false,
                }
            },
            None => {
                self.undo = None;
                false
            },
        }
    }

    /// A save finished.  On success the edited configuration becomes the
    /// saved one; a failure is shown as `Save failed: <error>`.  Returns
    /// whether to apply the configuration next: after a successful save
    /// when `apply_after` is asked for.
    pub fn saved(&mut self, result: Result<(), String>, apply_after: bool) -> (apply: bool)
        ensures
            apply == (result is Ok && apply_after),
            result is Ok ==> final(self)@ == session_saved(old(self)@),
            result matches Err(e) ==> final(self)@ == session_error(
                old(self)@,
                "Save failed: "@ + e@,
            ),
    {
        match result {
            Ok(()) => {
                self.original = match &self.config {
                    Some(c) => Some(c.snapshot()),
                    None => None,
                };
                apply_after
            },
            Err(e) => {
                let mut m = "Save failed: ".to_string();
                m.append(e.as_str());
                self.error = Some(m);
                false
            },
        }
    }

    /// Applying finished; a failure is shown as `Apply failed: <error>`.
    pub fn applied(&mut self, result: Result<String, String>)
        ensures
            result is Ok ==> final(self)@ == old(self)@,
            result matches Err(e) ==> final(self)@ == session_error(
                old(self)@,
                "Apply failed: "@ + e@,
            ),
    {
        match result {
            Ok(_) => {},
            Err(e) => {
                let mut m = "Apply failed: ".to_string();
                m.append(e.as_str());
                self.error = Some(m);
            },
        }
    }

    /// Whether there are unsaved changes.
    pub fn is_dirty(&self) -> (r: bool)
        ensures
            r == session_dirty(self@),
    {
        match (&self.config, &self.original) {
            (Some(c), Some(o)) => !c.same_content(o),
            _ => false,
        }
    }

    /// Whether there is a step to undo.
    pub fn can_undo(&self) -> (r: bool)
        ensures
            r == (self@.history matches Some(h) && h.past.len() > 0),
    {
        match &self.undo {
            Some(u) => u.can_undo(),
            None => false,
        }
    }

    /// Whether there is a step to redo.
    pub fn can_redo(&self) -> (r: bool)
        ensures
            r == (self@.history matches Some(h) && h.future.len() > 0),
    {
        match &self.undo {
            Some(u) => u.can_redo(),
            None => false,
        }
    }
}

// ---------------------------------------------------------------------------
// Laws of a session
// ---------------------------------------------------------------------------

/// A freshly loaded configuration has no unsaved changes and nothing to
/// undo or redo.
pub proof fn lemma_loaded_is_clean<M>(c: M)
    ensures
        !session_dirty(session_loaded(c)),
        session_loaded(c).history matches Some(h) && h.past.len() == 0 && h.future.len() == 0,
{
}

/// After a successful save there are no unsaved changes.
pub proof fn lemma_saved_is_clean<M>(s: SessionV<M>)
    ensures
        !session_dirty(session_saved(s)),
{
}

/// An edit made when the edited configuration is the history's current
/// state (right after a load, an undo or a redo) is taken back by one
/// undo, and brought back again by a redo.
pub proof fn lemma_edit_undo_redo<M>(s: SessionV<M>, c: M)
    requires
        s.config matches Some(cfg) && s.history matches Some(h) && h.current == cfg,
    ensures
        session_undo(session_edit(s, c)).config == s.config,
        session_undo(session_edit(s, c)).history == Some(
            History { future: seq![s.config.unwrap()], ..s.history.unwrap() },
        ),
        session_redo(session_undo(session_edit(s, c))).config == s.config,
{
    let h = s.history.unwrap();
    let cfg = s.config.unwrap();
    let h1 = spec_push(h, cfg);
    assert(h1.past.last() == h.current);
    assert(h1.past.drop_last() =~= h.past);
    let h2 = spec_undo(h1);
    assert(h2.future =~= seq![cfg]);
    assert(h2.future.last() == cfg);
}

/// Undo followed by redo brings back the history as it was, and makes
/// its current state the edited configuration.
pub proof fn lemma_undo_then_redo<M>(s: SessionV<M>)
    requires
        s.history matches Some(h) && h.past.len() > 0,
    ensures
        session_redo(session_undo(s)).history == s.history,
        session_redo(session_undo(s)).config == Some(s.history.unwrap().current),
        session_redo(session_undo(s)).original == s.original,
{
    let h = s.history.unwrap();
    let h1 = spec_undo(h);
    assert(h1.future.last() == h.current);
    let h2 = spec_redo(h1);
    assert(h2.past =~= h.past);
    assert(h2.future =~= h.future);
}

/// An edit changes nothing but the edited configuration and the history;
/// undo and redo change nothing but those either.
pub proof fn lemma_steps_keep_original<M>(s: SessionV<M>, c: M)
    ensures
        session_edit(s, c).original == s.original,
        session_undo(s).original == s.original,
        session_redo(s).original == s.original,
        session_edit(s, c).error == s.error,
        session_undo(s).error == s.error,
        session_redo(s).error == s.error,
{
}

// ---------------------------------------------------------------------------
// The Klassy editor
// ---------------------------------------------------------------------------

impl Snapshot for KlassyConfig {
    fn snapshot(&self) -> (r: Self) {
        self.copy()
    }

    fn same_content(&self, other: &Self) -> (r: bool) {
        self.same_as(other)
    }
}

/// The Klassy editor: a session over `klassyrc` and the file it edits.
pub struct KlassyEditor {
    pub session: EditSession<KlassyConfig>,
    pub file_path: Option<String>,
}

impl KlassyEditor {
    /// An editor with nothing loaded.
    pub fn new() -> (e: Self)
        ensures
            e.session@ == EditSession::<KlassyConfig>::new_view(),
            e.file_path is None,
    {
        KlassyEditor { session: EditSession::new(), file_path: None }
    }

    /// Open the default `klassyrc`: a load begins when it exists, otherwise
    /// the editor reports that it is missing.
    pub fn load_default(&mut self, default_exists: bool)
        ensures
            default_exists ==> final(self).session@ == session_begin_load(old(self).session@),
            !default_exists ==> final(self).session@ == session_error(
                old(self).session@,
                "Klassy config file not found at default path."@,
            ),
            final(self).file_path == old(self).file_path,
    {
        if default_exists {
            self.session.begin_load();
        } else {
            self.session.error = Some("Klassy config file not found at default path.".to_string());
        }
    }

    /// Open the file at `path`: a load begins.
    pub fn load_file(&mut self, path: String)
        ensures
            final(self).session@ == session_begin_load(old(self).session@),
            final(self).file_path == Some(path),
    {
        self.session.begin_load();
        self.file_path = Some(path);
    }

    /// Reading the file finished.  On success its configuration is loaded,
    /// the file defaults to `default_path`, and the file is returned to be
    /// recorded as recently used; a failure is shown.
    pub fn config_loaded(&mut self, result: Result<String, String>, default_path: &str) -> (recent: Option<String>)
        ensures
            match result {
                Ok(content) => {
                    &&& final(self).session@ == session_loaded(
                        klassy_from_sections(spec_parse_ini(content@).sections),
                    )
                    &&& match old(self).file_path {
                        Some(p) => final(self).file_path == Some(p),
                        None => final(self).file_path matches Some(p) && p@ == default_path@,
                    }
                    &&& match (recent, final(self).file_path) {
                        (Some(r), Some(p)) => r@ == p@,
                        _ => false,
                    }
                },
                Err(e) => {
                    &&& final(self).session@ == session_load_failed(old(self).session@, e@)
                    &&& final(self).file_path == old(self).file_path
                    &&& recent is None
                },
            },
    {
        match result {
            Ok(content) => {
                let doc = parse_ini(content.as_str());
                let c = KlassyConfig::from_ini(&doc);
                self.session.loaded(c);
                if self.file_path.is_none() {
                    self.file_path = Some(default_path.to_string());
                }
                match &self.file_path {
                    Some(p) => Some(p.clone()),
                    None => None,
                }
            },
            Err(e) => {
                self.session.load_failed(e);
                None
            },
        }
    }

    /// What saving writes: the configuration's text into the edited file,
    /// when both are known.
    pub fn save_request(&self) -> (r: Option<(String, String)>)
        ensures
            match (self.session.config, self.file_path) {
                (Some(c), Some(p)) => r matches Some((path, content)) && path@ == p@ && exists|d: DocV|
                    is_klassy_doc(c@, d) && content@ == doc_text(d),
                _ => r is None,
            },
    {
        match (&self.session.config, &self.file_path) {
            (Some(c), Some(p)) => {
                let doc = c.to_ini();
                let content = serialize_ini(&doc);
                Some((p.clone(), content))
            },
            _ => None,
        }
    }

    /// Set `key` in `section` to `value`, recording the previous
    /// configuration for undo.
    pub fn update_key(&mut self, section: &str, key: &str, value: String)
        ensures
            match old(self).session@.config {
                Some(c) => final(self).session@ == session_edit(
                    old(self).session@,
                    klassy_set(c, section@, key@, value@),
                ),
                None => final(self).session@ == old(self).session@,
            },
            final(self).file_path == old(self).file_path,
    {
        let next = match &self.session.config {
            Some(c) => {
                let mut n = c.copy();
                n.set_value(section, key, value);
                Some(n)
            },
            None => None,
        };
        match next {
            Some(n) => self.session.edit(n),
            None => {},
        }
    }
}

/// The configuration with each (section, key) of `targets`, in order, set
/// to `value`.
pub open spec fn klassy_set_all(
    c: KlassyModel,
    targets: Seq<(Seq<char>, Seq<char>)>,
    value: Seq<char>,
) -> KlassyModel
    decreases targets.len(),
{
    if targets.len() == 0 {
        c
    } else {
        klassy_set(klassy_set_all(c, targets.drop_last(), value), targets.last().0, targets.last().1, value)
    }
}

/// Writing one value at several targets: every target reads back the
/// value, and every other setting is left as it was.
pub proof fn lemma_klassy_set_all_reads(
    c: KlassyModel,
    targets: Seq<(Seq<char>, Seq<char>)>,
    value: Seq<char>,
    s2: Seq<char>,
    k2: Seq<char>,
)
    ensures
        targets.contains((s2, k2)) ==> nested(klassy_set_all(c, targets, value), s2, k2) == Some(value),
        !targets.contains((s2, k2)) ==> nested(klassy_set_all(c, targets, value), s2, k2) == nested(c, s2, k2),
    decreases targets.len(),
{
    if targets.len() > 0 {
        let prev = targets.drop_last();
        let (s, k) = targets.last();
        lemma_klassy_set_all_reads(c, prev, value, s2, k2);
        lemma_klassy_get_after_set(klassy_set_all(c, prev, value), s, k, value, s2, k2);
        if targets.contains((s2, k2)) && (s2 != s || k2 != k) {
            let j = choose|j: int| 0 <= j < targets.len() && targets[j] == (s2, k2);
            assert(j < targets.len() - 1);
            assert(prev[j] == (s2, k2));
        }
        if prev.contains((s2, k2)) {
            let j = choose|j: int| 0 <= j < prev.len() && prev[j] == (s2, k2);
            assert(targets[j] == (s2, k2));
        }
        if s2 == s && k2 == k {
            assert(targets[targets.len() - 1] == (s2, k2));
        }
    }
}

impl KlassyEditor {
    /// Apply what a control writes to the Klassy configuration: the values
    /// at its targets, recording the previous configuration for undo.
    /// Bindings for the Kvantum editor, and decimal values (written by the
    /// caller), change nothing here.
    pub fn apply_binding(&mut self, b: &Binding)
        ensures
            match (b, old(self).session@.config) {
                (Binding::Klassy(t, v), Some(c)) => final(self).session@ == session_edit(
                    old(self).session@,
                    klassy_set_all(c, target_texts(t@), v@),
                ),
                _ => final(self).session@ == old(self).session@,
            },
            final(self).file_path == old(self).file_path,
    {
        match b {
            Binding::Klassy(targets, value) => {
                let next = match &self.session.config {
                    Some(c) => {
                        let mut n = c.copy();
                        let ghost t = target_texts(targets@);
                        let mut i: usize = 0;
                        assert(t.take(0) =~= Seq::<(Seq<char>, Seq<char>)>::empty());
                        while i < targets.len()
                            invariant
                                i <= targets.len(),
                                t == target_texts(targets@),
                                n@ == klassy_set_all(c@, t.take(i as int), value@),
                            decreases targets.len() - i,
                        {
                            assert(t.take(i + 1).drop_last() =~= t.take(i as int));
                            assert(t.take(i + 1).last() == (targets@[i as int].0@, targets@[i as int].1@));
                            n.set_value(targets[i].0.as_str(), targets[i].1.as_str(), value.clone());
                            i += 1;
                        }
                        assert(t.take(i as int) =~= t);
                        Some(n)
                    },
                    None => None,
                };
                match next {
                    Some(n) => self.session.edit(n),
                    None => {},
                }
            },
            _ => {},
        }
    }
}

// ---------------------------------------------------------------------------
// The Kvantum editor
// ---------------------------------------------------------------------------

impl Snapshot for KvantumConfig {
    fn snapshot(&self) -> (r: Self) {
        self.copy()
    }

    fn same_content(&self, other: &Self) -> (r: bool) {
        self.same_as(other)
    }
}

/// What saving a Kvantum theme writes.
pub struct KvantumSave {
    /// The `.kvconfig` file and its text.
    pub kvconfig_path: String,
    pub content: String,
    /// The `.svg` file and its text, when the theme has an SVG.
    pub svg: Option<(String, String)>,
}

/// The Kvantum editor: a session over a theme's `.kvconfig`, the theme's
/// directory and name, and its SVG.
pub struct KvantumEditor {
    pub session: EditSession<KvantumConfig>,
    pub dir_path: Option<String>,
    pub theme_name: Option<String>,
    pub svg_content: Option<String>,
}

/// The configuration with `key` of `[GeneralColors]` set to `value`.
pub open spec fn with_color(c: ConfigModel, key: Seq<char>, value: Seq<char>) -> ConfigModel {
    ConfigModel { colors: c.colors.insert(key, value), ..c }
}

/// The configuration with `key` of `[%General]` set to `value`.
pub open spec fn with_general(c: ConfigModel, key: Seq<char>, value: Seq<char>) -> ConfigModel {
    ConfigModel { general: c.general.insert(key, value), ..c }
}

/// The configuration with `key` of `section` set to `value`: `Hacks` is
/// the hacks section; a widget section must exist, otherwise nothing
/// changes.
pub open spec fn with_section_value(
    c: ConfigModel,
    section: Seq<char>,
    key: Seq<char>,
    value: Seq<char>,
) -> ConfigModel {
    if section == "Hacks"@ {
        ConfigModel { hacks: c.hacks.insert(key, value), ..c }
    } else if c.widgets.contains_key(section) {
        ConfigModel {
            widgets: c.widgets.insert(
                section,
                SectionModel { values: c.widgets[section].values.insert(key, value), ..c.widgets[section] },
            ),
            ..c
        }
    } else {
        c
    }
}

/// `sv` is what saving the editor's theme writes: `<dir>/<name>.kvconfig`
/// with the configuration's text and, when there is an SVG,
/// `<dir>/<name>.svg` with it (the name defaults to `theme`).
pub open spec fn is_save_of(e: KvantumEditor, sv: KvantumSave) -> bool {
    match (e.session.config, e.dir_path) {
        (Some(c), Some(dir)) => {
            let name = match e.theme_name {
                Some(n) => n@,
                None => "theme"@,
            };
            &&& sv.kvconfig_path@ == dir@ + "/"@ + name + ".kvconfig"@
            &&& exists|d: DocV| is_config_doc(c@, d) && sv.content@ == doc_text(d)
            &&& match e.svg_content {
                Some(svg) => sv.svg matches Some((p, t)) && p@ == dir@ + "/"@ + name + ".svg"@ && t@ == svg@,
                None => sv.svg is None,
            }
        },
        _ => false,
    }
}

impl KvantumEditor {
    /// An editor with nothing loaded.
    pub fn new() -> (e: Self)
        ensures
            e.session@ == EditSession::<KvantumConfig>::new_view(),
            e.dir_path is None,
            e.theme_name is None,
            e.svg_content is None,
    {
        KvantumEditor { session: EditSession::new(), dir_path: None, theme_name: None, svg_content: None }
    }

    /// Loading the theme in `dir_path` named `theme_name` finished.  On
    /// success the theme is loaded and its directory returned to be
    /// recorded as recently used; a failure is shown.
    pub fn theme_loaded(&mut self, dir_path: String, theme_name: String, result: Result<KvantumThemeData, String>) -> (recent: Option<String>)
        ensures
            match result {
                Ok(data) => {
                    &&& final(self).session@ == session_loaded(data.config@)
                    &&& final(self).svg_content == data.svg_content
                    &&& final(self).dir_path == Some(dir_path)
                    &&& final(self).theme_name == Some(theme_name)
                    &&& recent matches Some(r) && r@ == dir_path@
                },
                Err(e) => {
                    &&& final(self).session@ == session_load_failed(old(self).session@, e@)
                    &&& final(self).dir_path == old(self).dir_path
                    &&& final(self).theme_name == old(self).theme_name
                    &&& final(self).svg_content == old(self).svg_content
                    &&& recent is None
                },
            },
    {
        match result {
            Ok(data) => {
                let recent = dir_path.clone();
                self.session.loaded(data.config);
                self.svg_content = data.svg_content;
                self.dir_path = Some(dir_path);
                self.theme_name = Some(theme_name);
                Some(recent)
            },
            Err(e) => {
                self.session.load_failed(e);
                None
            },
        }
    }

    /// What saving writes: `<dir>/<name>.kvconfig` and, when there is an
    /// SVG, `<dir>/<name>.svg` (the name defaults to `theme`).
    pub fn save_request(&self) -> (r: Option<KvantumSave>)
        ensures
            match (self.session.config, self.dir_path) {
                (Some(_), Some(_)) => r matches Some(sv) && is_save_of(*self, sv),
                _ => r is None,
            },
    {
        match (&self.session.config, &self.dir_path) {
            (Some(c), Some(dir)) => {
                let name = match &self.theme_name {
                    Some(n) => n.clone(),
                    None => "theme".to_string(),
                };
                let content = serialize_ini(&c.to_ini());
                let mut base = dir.clone();
                base.append("/");
                base.append(name.as_str());
                let mut kvconfig_path = base.clone();
                kvconfig_path.append(".kvconfig");
                let svg = match &self.svg_content {
                    Some(t) => {
                        let mut p = base.clone();
                        p.append(".svg");
                        Some((p, t.clone()))
                    },
                    None => None,
                };
                Some(KvantumSave { kvconfig_path, content, svg })
            },
            _ => None,
        }
    }

    /// Set `key` of `[GeneralColors]` to `value`, recording the previous
    /// configuration for undo.
    pub fn update_color(&mut self, key: &str, value: String)
        ensures
            match old(self).session@.config {
                Some(c) => final(self).session@ == session_edit(old(self).session@, with_color(c, key@, value@)),
                None => final(self).session@ == old(self).session@,
            },
            final(self).svg_content == old(self).svg_content,
            final(self).dir_path == old(self).dir_path,
            final(self).theme_name == old(self).theme_name,
    {
        let next = match &self.session.config {
            Some(c) => Some(c.with_color_value(key, value)),
            None => None,
        };
        match next {
            Some(n) => self.session.edit(n),
            None => {},
        }
    }

    /// Set `key` of `[%General]` to `value`, recording the previous
    /// configuration for undo.
    pub fn update_general(&mut self, key: &str, value: String)
        ensures
            match old(self).session@.config {
                Some(c) => final(self).session@ == session_edit(old(self).session@, with_general(c, key@, value@)),
                None => final(self).session@ == old(self).session@,
            },
            final(self).svg_content == old(self).svg_content,
            final(self).dir_path == old(self).dir_path,
            final(self).theme_name == old(self).theme_name,
    {
        let next = match &self.session.config {
            Some(c) => Some(c.with_general_value(key, value)),
            None => None,
        };
        match next {
            Some(n) => self.session.edit(n),
            None => {},
        }
    }

    /// Set `key` of `section` to `value` (`Hacks`, or an existing widget
    /// section), recording the previous configuration for undo.  For an
    /// unknown section the configuration stays as it is, though the
    /// previous configuration is still recorded.
    pub fn update_section(&mut self, section: &str, key: &str, value: String)
        ensures
            match old(self).session@.config {
                Some(c) => final(self).session@ == session_edit(
                    old(self).session@,
                    with_section_value(c, section@, key@, value@),
                ),
                None => final(self).session@ == old(self).session@,
            },
            final(self).svg_content == old(self).svg_content,
            final(self).dir_path == old(self).dir_path,
            final(self).theme_name == old(self).theme_name,
    {
        let next = match &self.session.config {
            Some(c) => {
                if crate::text::str_eq(section, "Hacks") {
                    Some(c.with_hack_value(key, value))
                } else {
                    match c.get_section(section) {
                        Some(sec) => {
                            let mut new_sec = sec.copy();
                            new_sec.set_value(key, value);
                            let n = c.copy_with_section(section, new_sec);
                            proof {
                                assert(n@ =~= with_section_value(c@, section@, key@, value@));
                            }
                            Some(n)
                        },
                        None => Some(c.snapshot()),
                    }
                }
            },
            None => None,
        };
        match next {
            Some(n) => self.session.edit(n),
            None => {},
        }
    }

    /// The theme to re-activate after saving, or the error when the editor
    /// has no theme name.
    pub fn apply_target(&self) -> (r: Result<String, String>)
        ensures
            match self.theme_name {
                Some(n) => r matches Ok(t) && t@ == n@,
                None => r matches Err(e) && e@ == "No theme name to apply."@,
            },
    {
        match &self.theme_name {
            Some(n) => Ok(n.clone()),
            None => Err("No theme name to apply.".to_string()),
        }
    }

    /// An SVG was imported in place of the theme's.
    pub fn svg_imported(&mut self, content: Option<String>)
        ensures
            final(self).svg_content == (match content {
                Some(c) => Some(c),
                None => old(self).svg_content,
            }),
            final(self).session@ == old(self).session@,
            final(self).dir_path == old(self).dir_path,
            final(self).theme_name == old(self).theme_name,
    {
        match content {
            Some(c) => self.svg_content = Some(c),
            None => {},
        }
    }

    /// Set the fill colour of an element of the SVG, when there is one.
    pub fn update_fill(&mut self, element_id: &str, color: &str)
        ensures
            match old(self).svg_content {
                Some(svg) => final(self).svg_content matches Some(t) && exists|ns: Seq<char>|
                    crate::svg::new_style_ok(svg@, element_id@, "fill"@, color@, ns)
                        && t@ == crate::svg::set_color_spec(svg@, element_id@, "fill"@, color@, ns),
                None => final(self).svg_content is None,
            },
            final(self).session@ == old(self).session@,
            final(self).dir_path == old(self).dir_path,
            final(self).theme_name == old(self).theme_name,
    {
        let next = match &self.svg_content {
            Some(svg) => Some(set_fill_color(svg.as_str(), element_id, color)),
            None => None,
        };
        self.svg_content = next;
    }

    /// Set the stroke colour of an element of the SVG, when there is one.
    pub fn update_stroke(&mut self, element_id: &str, color: &str)
        ensures
            match old(self).svg_content {
                Some(svg) => final(self).svg_content matches Some(t) && exists|ns: Seq<char>|
                    crate::svg::new_style_ok(svg@, element_id@, "stroke"@, color@, ns)
                        && t@ == crate::svg::set_color_spec(svg@, element_id@, "stroke"@, color@, ns),
                None => final(self).svg_content is None,
            },
            final(self).session@ == old(self).session@,
            final(self).dir_path == old(self).dir_path,
            final(self).theme_name == old(self).theme_name,
    {
        let next = match &self.svg_content {
            Some(svg) => Some(set_stroke_color(svg.as_str(), element_id, color)),
            None => None,
        };
        self.svg_content = next;
    }
}

/// The configuration with `key` of the widget section `section` set to
/// `value` (removed for `None`); a missing section is created empty and
/// added to the order.
pub open spec fn with_widget_value(
    c: ConfigModel,
    section: Seq<char>,
    key: Seq<char>,
    value: Option<Seq<char>>,
) -> ConfigModel {
    let base = if c.widgets.contains_key(section) {
        c.widgets[section]
    } else {
        SectionModel { name: section, values: Map::empty() }
    };
    let values = match value {
        Some(v) => base.values.insert(key, v),
        None => base.values.remove(key),
    };
    ConfigModel {
        widgets: c.widgets.insert(section, SectionModel { values, ..base }),
        order: if c.widgets.contains_key(section) {
            c.order
        } else {
            c.order.push(section)
        },
        ..c
    }
}

impl KvantumEditor {
    /// Apply what a control writes to the Kvantum configuration, recording
    /// the edited configuration itself in the history.  Bindings for the
    /// Klassy editor change nothing here.
    pub fn apply_binding(&mut self, b: &Binding)
        ensures
            match old(self).session@.config {
                Some(c) => match b {
                    Binding::KvantumGeneral(k, v) => final(self).session@ == session_edit_new(
                        old(self).session@,
                        with_general(c, k@, v@),
                    ),
                    Binding::KvantumHack(k, v) => final(self).session@ == session_edit_new(
                        old(self).session@,
                        ConfigModel { hacks: c.hacks.insert(k@, v@), ..c },
                    ),
                    Binding::KvantumColor(k, v) => final(self).session@ == session_edit_new(
                        old(self).session@,
                        with_color(c, k@, v@),
                    ),
                    Binding::KvantumWidget(s, k, v) => final(self).session@ == session_edit_new(
                        old(self).session@,
                        with_widget_value(
                            c,
                            s@,
                            k@,
                            match v {
                                Some(t) => Some(t@),
                                None => None,
                            },
                        ),
                    ),
                    _ => final(self).session@ == old(self).session@,
                },
                None => final(self).session@ == old(self).session@,
            },
            final(self).svg_content == old(self).svg_content,
            final(self).dir_path == old(self).dir_path,
            final(self).theme_name == old(self).theme_name,
    {
        let next = match &self.session.config {
            Some(c) => match b {
                Binding::KvantumGeneral(k, v) => Some(c.with_general_value(k.as_str(), v.clone())),
                Binding::KvantumHack(k, v) => Some(c.with_hack_value(k.as_str(), v.clone())),
                Binding::KvantumColor(k, v) => Some(c.with_color_value(k.as_str(), v.clone())),
                Binding::KvantumWidget(s, k, v) => {
                    let mut sec = match c.get_section(s.as_str()) {
                        Some(existing) => existing.copy(),
                        None => KvantumSection::empty(s.as_str()),
                    };
                    match v {
                        Some(t) => sec.set_value(k.as_str(), t.clone()),
                        None => sec.remove_key(k.as_str()),
                    }
                    let n = c.copy_with_section(s.as_str(), sec);
                    proof {
                        let vv = match v {
                            Some(t) => Some(t@),
                            None => None,
                        };
                        assert(n@ =~= with_widget_value(c@, s@, k@, vv));
                    }
                    Some(n)
                },
                _ => None,
            },
            None => None,
        };
        match next {
            Some(n) => self.session.edit_recording_new(n),
            None => {},
        }
    }
}

/// The error when no Kvantum theme is active.
pub fn no_active_theme_error() -> (r: String)
    ensures
        r@ == "No active Kvantum theme found."@,
{
    "No active Kvantum theme found.".to_string()
}

/// What opening a page loads.
#[derive(Clone, Copy, Debug, PartialEq, Eq, Structural)]
pub enum PageLoad {
    Nothing,
    /// The default `klassyrc`.
    KlassyDefault,
    /// The active Kvantum theme.
    ActiveKvantumTheme,
}

/// Opening the Klassy or Kvantum page loads its configuration the first
/// time, unless a load is already under way.
pub fn load_on_open(page: Page, klassy: &KlassyEditor, kvantum: &KvantumEditor) -> (r: PageLoad)
    ensures
        r == (if page == Page::Klassy && klassy.session.config is None && !klassy.session.loading {
            PageLoad::KlassyDefault
        } else if page == Page::Kvantum && kvantum.session.config is None && !kvantum.session.loading {
            PageLoad::ActiveKvantumTheme
        } else {
            PageLoad::Nothing
        }),
{
    match page {
        Page::Klassy => if klassy.session.config.is_none() && !klassy.session.loading {
            PageLoad::KlassyDefault
        } else {
            PageLoad::Nothing
        },
        Page::Kvantum => if kvantum.session.config.is_none() && !kvantum.session.loading {
            PageLoad::ActiveKvantumTheme
        } else {
            PageLoad::Nothing
        },
        _ => PageLoad::Nothing,
    }
}

} // verus!
