//! The unified application configuration: nine optional overlay-action
//! shortcut bindings, per-agent shortcut bindings, and connection settings.
//!
//! `ConfigStore` models the persisted settings document and its one-way
//! migration: a document in the legacy schema (a bare shortcut configuration)
//! is recognized on load, upgraded to the current schema without loss of the
//! agent bindings, and eagerly persisted; an unreadable document falls back
//! to platform defaults. Every settings mutation is a full-document
//! read-modify-write that preserves the fields it does not touch.

use vstd::prelude::*;
use vstd::string::StringExecFns;

verus! {

/// The platform family the process runs on, resolved once at startup; it
/// selects the default bindings table.
#[derive(Clone, Copy, PartialEq, Eq, Structural, Debug)]
pub enum Platform {
    Windows,
    Other,
}

/// Overlay-action shortcut bindings plus agent bindings. `agent_shortcuts`
/// maps an agent identifier to a shortcut string, one binding per agent;
/// the registry reads it in order.
pub struct UnifiedShortcutConfig {
    pub overlay_toggle: Option<String>,
    pub overlay_move_up: Option<String>,
    pub overlay_move_down: Option<String>,
    pub overlay_move_left: Option<String>,
    pub overlay_move_right: Option<String>,
    pub overlay_resize_up: Option<String>,
    pub overlay_resize_down: Option<String>,
    pub overlay_resize_left: Option<String>,
    pub overlay_resize_right: Option<String>,
    pub agent_shortcuts: Vec<(String, String)>,
}

/// The mathematical value of a `UnifiedShortcutConfig`.
#[verifier::ext_equal]
pub ghost struct ShortcutConfigV {
    pub overlay_toggle: Option<Seq<char>>,
    pub overlay_move_up: Option<Seq<char>>,
    pub overlay_move_down: Option<Seq<char>>,
    pub overlay_move_left: Option<Seq<char>>,
    pub overlay_move_right: Option<Seq<char>>,
    pub overlay_resize_up: Option<Seq<char>>,
    pub overlay_resize_down: Option<Seq<char>>,
    pub overlay_resize_left: Option<Seq<char>>,
    pub overlay_resize_right: Option<Seq<char>>,
    pub agent_shortcuts: Seq<(Seq<char>, Seq<char>)>,
}

impl View for UnifiedShortcutConfig {
    type V = ShortcutConfigV;

    open spec fn view(&self) -> ShortcutConfigV {
        ShortcutConfigV {
            overlay_toggle: self.overlay_toggle.deep_view(),
            overlay_move_up: self.overlay_move_up.deep_view(),
            overlay_move_down: self.overlay_move_down.deep_view(),
            overlay_move_left: self.overlay_move_left.deep_view(),
            overlay_move_right: self.overlay_move_right.deep_view(),
            overlay_resize_up: self.overlay_resize_up.deep_view(),
            overlay_resize_down: self.overlay_resize_down.deep_view(),
            overlay_resize_left: self.overlay_resize_left.deep_view(),
            overlay_resize_right: self.overlay_resize_right.deep_view(),
            agent_shortcuts: self.agent_shortcuts.deep_view(),
        }
    }
}

/// The root persisted entity: shortcut bindings plus connection settings.
pub struct AppConfig {
    pub shortcuts: UnifiedShortcutConfig,
    pub ollama_url: Option<String>,
    pub ollama_api_key: Option<String>,
}

/// The mathematical value of an `AppConfig`.
#[verifier::ext_equal]
pub ghost struct AppConfigV {
    pub shortcuts: ShortcutConfigV,
    pub ollama_url: Option<Seq<char>>,
    pub ollama_api_key: Option<Seq<char>>,
}

impl View for AppConfig {
    type V = AppConfigV;

    open spec fn view(&self) -> AppConfigV {
        AppConfigV {
            shortcuts: self.shortcuts@,
            ollama_url: self.ollama_url.deep_view(),
            ollama_api_key: self.ollama_api_key.deep_view(),
        }
    }
}

/// A copy of an optional string, equal in value to the original.
fn clone_opt(o: &Option<String>) -> (r: Option<String>)
    ensures
        r.deep_view() == o.deep_view(),
{
    match o {
        Some(s) => Some(s.clone()),
        None => None,
    }
}

impl Clone for UnifiedShortcutConfig {
    fn clone(&self) -> (r: Self)
        ensures
            r@ == self@,
    {
        let mut agents: Vec<(String, String)> = Vec::new();
        let mut i: usize = 0;
        while i < self.agent_shortcuts.len()
            invariant
                i <= self.agent_shortcuts@.len(),
                agents@.len() == i,
                forall|k: int|
                    0 <= k < i ==> agents@[k].0@ == self.agent_shortcuts@[k].0@ && agents@[k].1@
                        == self.agent_shortcuts@[k].1@,
            decreases self.agent_shortcuts@.len() - i,
        {
            let pair = &self.agent_shortcuts[i];
            agents.push((pair.0.clone(), pair.1.clone()));
            i = i + 1;
        }
        proof {
            assert(agents.deep_view() =~~= self.agent_shortcuts.deep_view());
        }
        UnifiedShortcutConfig {
            overlay_toggle: clone_opt(&self.overlay_toggle),
            overlay_move_up: clone_opt(&self.overlay_move_up),
            overlay_move_down: clone_opt(&self.overlay_move_down),
            overlay_move_left: clone_opt(&self.overlay_move_left),
            overlay_move_right: clone_opt(&self.overlay_move_right),
            overlay_resize_up: clone_opt(&self.overlay_resize_up),
            overlay_resize_down: clone_opt(&self.overlay_resize_down),
            overlay_resize_left: clone_opt(&self.overlay_resize_left),
            overlay_resize_right: clone_opt(&self.overlay_resize_right),
            agent_shortcuts: agents,
        }
    }
}

impl Clone for AppConfig {
    fn clone(&self) -> (r: Self)
        ensures
            r@ == self@,
    {
        AppConfig {
            shortcuts: self.shortcuts.clone(),
            ollama_url: clone_opt(&self.ollama_url),
            ollama_api_key: clone_opt(&self.ollama_api_key),
        }
    }
}

/// The default bindings for one platform family: overlay actions on the
/// platform's primary command modifier, no agent bindings.
pub open spec fn default_shortcut_config(p: Platform) -> ShortcutConfigV {
    if p == Platform::Windows {
        ShortcutConfigV {
            overlay_toggle: Some("Alt+B"@),
            overlay_move_up: Some("Alt+ArrowUp"@),
            overlay_move_down: Some("Alt+ArrowDown"@),
            overlay_move_left: Some("Alt+ArrowLeft"@),
            overlay_move_right: Some("Alt+ArrowRight"@),
            overlay_resize_up: Some("Alt+Shift+ArrowUp"@),
            overlay_resize_down: Some("Alt+Shift+ArrowDown"@),
            overlay_resize_left: Some("Alt+Shift+ArrowLeft"@),
            overlay_resize_right: Some("Alt+Shift+ArrowRight"@),
            agent_shortcuts: Seq::empty(),
        }
    } else {
        ShortcutConfigV {
            overlay_toggle: Some("Cmd+B"@),
            overlay_move_up: Some("Cmd+ArrowUp"@),
            overlay_move_down: Some("Cmd+ArrowDown"@),
            overlay_move_left: Some("Cmd+ArrowLeft"@),
            overlay_move_right: Some("Cmd+ArrowRight"@),
            overlay_resize_up: Some("Cmd+Shift+ArrowUp"@),
            overlay_resize_down: Some("Cmd+Shift+ArrowDown"@),
            overlay_resize_left: Some("Cmd+Shift+ArrowLeft"@),
            overlay_resize_right: Some("Cmd+Shift+ArrowRight"@),
            agent_shortcuts: Seq::empty(),
        }
    }
}

/// The default application configuration: default bindings for the platform
/// and the local connection endpoint.
pub open spec fn default_app_config(p: Platform) -> AppConfigV {
    AppConfigV {
        shortcuts: default_shortcut_config(p),
        ollama_url: Some("http://localhost:11434"@),
        ollama_api_key: None,
    }
}

impl UnifiedShortcutConfig {
    /// The default bindings table for the given platform family.
    pub fn default_for(p: Platform) -> (r: UnifiedShortcutConfig)
        ensures
            r@ == default_shortcut_config(p),
    {
        let r = match p {
            Platform::Windows => UnifiedShortcutConfig {
                overlay_toggle: Some(String::from_str("Alt+B")),
                overlay_move_up: Some(String::from_str("Alt+ArrowUp")),
                overlay_move_down: Some(String::from_str("Alt+ArrowDown")),
                overlay_move_left: Some(String::from_str("Alt+ArrowLeft")),
                overlay_move_right: Some(String::from_str("Alt+ArrowRight")),
                overlay_resize_up: Some(String::from_str("Alt+Shift+ArrowUp")),
                overlay_resize_down: Some(String::from_str("Alt+Shift+ArrowDown")),
                overlay_resize_left: Some(String::from_str("Alt+Shift+ArrowLeft")),
                overlay_resize_right: Some(String::from_str("Alt+Shift+ArrowRight")),
                agent_shortcuts: Vec::new(),
            },
            Platform::Other => UnifiedShortcutConfig {
                overlay_toggle: Some(String::from_str("Cmd+B")),
                overlay_move_up: Some(String::from_str("Cmd+ArrowUp")),
                overlay_move_down: Some(String::from_str("Cmd+ArrowDown")),
                overlay_move_left: Some(String::from_str("Cmd+ArrowLeft")),
                overlay_move_right: Some(String::from_str("Cmd+ArrowRight")),
                overlay_resize_up: Some(String::from_str("Cmd+Shift+ArrowUp")),
                overlay_resize_down: Some(String::from_str("Cmd+Shift+ArrowDown")),
                overlay_resize_left: Some(String::from_str("Cmd+Shift+ArrowLeft")),
                overlay_resize_right: Some(String::from_str("Cmd+Shift+ArrowRight")),
                agent_shortcuts: Vec::new(),
            },
        };
        proof {
            assert(r@ =~~= default_shortcut_config(p));
        }
        r
    }
}

impl AppConfig {
    /// The default application configuration for the given platform family.
    pub fn default_for(p: Platform) -> (r: AppConfig)
        ensures
            r@ == default_app_config(p),
    {
        let r = AppConfig {
            shortcuts: UnifiedShortcutConfig::default_for(p),
            ollama_url: Some(String::from_str("http://localhost:11434")),
            ollama_api_key: None,
        };
        proof {
            assert(r@ =~~= default_app_config(p));
        }
        r
    }
}

/// What the persisted settings document holds, as recognized by the loader:
/// absent, parseable in the current schema, parseable only in the legacy
/// schema (a bare shortcut configuration), or parseable in neither.
pub enum StoredDoc {
    Missing,
    Current(AppConfig),
    Legacy(UnifiedShortcutConfig),
    Corrupt,
}

/// The mathematical value of a `StoredDoc`.
#[verifier::ext_equal]
pub ghost enum StoredDocV {
    Missing,
    Current(AppConfigV),
    Legacy(ShortcutConfigV),
    Corrupt,
}

impl View for StoredDoc {
    type V = StoredDocV;

    open spec fn view(&self) -> StoredDocV {
        match self {
            StoredDoc::Missing => StoredDocV::Missing,
            StoredDoc::Current(c) => StoredDocV::Current(c@),
            StoredDoc::Legacy(l) => StoredDocV::Legacy(l@),
            StoredDoc::Corrupt => StoredDocV::Corrupt,
        }
    }
}

/// A legacy document upgraded to the current schema: the same shortcut
/// bindings, no connection settings.
pub open spec fn migrated(l: ShortcutConfigV) -> AppConfigV {
    AppConfigV { shortcuts: l, ollama_url: None, ollama_api_key: None }
}

/// What `load` returns for each state of the persisted document.
pub open spec fn load_result(d: StoredDocV, p: Platform) -> AppConfigV {
    match d {
        StoredDocV::Current(c) => c,
        StoredDocV::Legacy(l) => migrated(l),
        StoredDocV::Missing => default_app_config(p),
        StoredDocV::Corrupt => default_app_config(p),
    }
}

/// The persisted document after `load`: a legacy document has been rewritten
/// in the current schema; anything else is untouched.
pub open spec fn doc_after_load(d: StoredDocV) -> StoredDocV {
    match d {
        StoredDocV::Legacy(l) => StoredDocV::Current(migrated(l)),
        other => other,
    }
}

/// The persisted settings document together with the platform whose defaults
/// apply when no usable document exists.
pub struct ConfigStore {
    pub doc: StoredDoc,
    pub platform: Platform,
}

impl ConfigStore {
    /// A store over the given document state.
    pub fn new(platform: Platform, doc: StoredDoc) -> (r: ConfigStore)
        ensures
            r.doc == doc,
            r.platform == platform,
    {
        ConfigStore { doc, platform }
    }

    /// Loads the configuration. A current-schema document is returned as it
    /// stands; a legacy document is migrated (no connection settings) and the
    /// migrated document is eagerly persisted before returning; a missing or
    /// unparsable document falls back to the platform defaults.
    pub fn load(&mut self) -> (cfg: AppConfig)
        ensures
            cfg@ == load_result(old(self).doc@, old(self).platform),
            final(self).doc@ == doc_after_load(old(self).doc@),
            final(self).platform == old(self).platform,
    {
        match &self.doc {
            StoredDoc::Current(c) => c.clone(),
            StoredDoc::Legacy(l) => {
                let cfg = AppConfig {
                    shortcuts: l.clone(),
                    ollama_url: None,
                    ollama_api_key: None,
                };
                self.doc = StoredDoc::Current(cfg.clone());
                cfg
            },
            StoredDoc::Missing => AppConfig::default_for(self.platform),
            StoredDoc::Corrupt => AppConfig::default_for(self.platform),
        }
    }

    /// Overwrites the persisted document with the given configuration, whole:
    /// the store never writes a partial document.
    pub fn save(&mut self, config: &AppConfig)
        ensures
            final(self).doc@ == StoredDocV::Current(config@),
            final(self).platform == old(self).platform,
    {
        self.doc = StoredDoc::Current(config.clone());
    }
}

/// The process-wide shortcut state: the in-memory configuration snapshot and
/// the read-only report of what was registered at startup.
pub struct UnifiedShortcutState {
    pub config: AppConfig,
    pub registered_shortcuts: Vec<String>,
}

impl UnifiedShortcutState {
    /// Fresh state around a loaded configuration; nothing registered yet.
    pub fn new(config: AppConfig) -> (r: UnifiedShortcutState)
        ensures
            r.config == config,
            r.registered_shortcuts@.len() == 0,
    {
        UnifiedShortcutState { config, registered_shortcuts: Vec::new() }
    }

    /// The current shortcut configuration.
    pub fn get_shortcut_config(&self) -> (r: &UnifiedShortcutConfig)
        ensures
            r == &self.config.shortcuts,
    {
        &self.config.shortcuts
    }

    /// The read-only registration report produced at startup.
    pub fn get_registered_shortcuts(&self) -> (r: &Vec<String>)
        ensures
            r == &self.registered_shortcuts,
    {
        &self.registered_shortcuts
    }

    /// The stored connection URL.
    pub fn get_connection_url(&self) -> (r: &Option<String>)
        ensures
            r == &self.config.ollama_url,
    {
        &self.config.ollama_url
    }

    /// The stored connection API key.
    pub fn get_connection_api_key(&self) -> (r: &Option<String>)
        ensures
            r == &self.config.ollama_api_key,
    {
        &self.config.ollama_api_key
    }
}

/// Replaces the shortcut bindings, preserving the connection settings, and
/// persists the whole document. The change takes effect only after a process
/// restart, so the caller is told one is required.
pub fn set_shortcut_config(
    store: &mut ConfigStore,
    state: &mut UnifiedShortcutState,
    shortcuts: UnifiedShortcutConfig,
) -> (requires_restart: bool)
    ensures
        final(state).config@.shortcuts == shortcuts@,
        final(state).config@.ollama_url == old(state).config@.ollama_url,
        final(state).config@.ollama_api_key == old(state).config@.ollama_api_key,
        final(state).registered_shortcuts == old(state).registered_shortcuts,
        final(store).doc@ == StoredDocV::Current(final(state).config@),
        final(store).platform == old(store).platform,
        requires_restart,
{
    state.config.shortcuts = shortcuts;
    store.save(&state.config);
    true
}

/// Replaces the stored connection URL, preserving every other field, and
/// persists the whole document.
pub fn update_connection_url(
    store: &mut ConfigStore,
    state: &mut UnifiedShortcutState,
    url: Option<String>,
)
    ensures
        final(state).config@.ollama_url == url.deep_view(),
        final(state).config@.shortcuts == old(state).config@.shortcuts,
        final(state).config@.ollama_api_key == old(state).config@.ollama_api_key,
        final(state).registered_shortcuts == old(state).registered_shortcuts,
        final(store).doc@ == StoredDocV::Current(final(state).config@),
        final(store).platform == old(store).platform,
{
    state.config.ollama_url = url;
    store.save(&state.config);
}

/// Replaces the stored connection API key, preserving every other field, and
/// persists the whole document.
pub fn update_connection_api_key(
    store: &mut ConfigStore,
    state: &mut UnifiedShortcutState,
    api_key: Option<String>,
)
    ensures
        final(state).config@.ollama_api_key == api_key.deep_view(),
        final(state).config@.shortcuts == old(state).config@.shortcuts,
        final(state).config@.ollama_url == old(state).config@.ollama_url,
        final(state).registered_shortcuts == old(state).registered_shortcuts,
        final(store).doc@ == StoredDocV::Current(final(state).config@),
        final(store).platform == old(store).platform,
{
    state.config.ollama_api_key = api_key;
    store.save(&state.config);
}

/// Migration keeps every shortcut binding and leaves the connection fields
/// unset, and the rewritten document is in the current schema: a second load
/// sees exactly the configuration the first one returned.
pub proof fn lemma_migration_lossless(l: ShortcutConfigV, p: Platform)
    ensures
        load_result(StoredDocV::Legacy(l), p).shortcuts == l,
        load_result(StoredDocV::Legacy(l), p).ollama_url is None,
        doc_after_load(StoredDocV::Legacy(l)) == StoredDocV::Current(
            load_result(StoredDocV::Legacy(l), p),
        ),
        load_result(doc_after_load(StoredDocV::Legacy(l)), p) == load_result(
            StoredDocV::Legacy(l),
            p,
        ),
{
}

/// A saved configuration is returned unchanged by the next load: the
/// document round-trips without loss, the agent bindings included.
pub proof fn lemma_save_load_round_trip(c: AppConfigV, p: Platform)
    ensures
        load_result(StoredDocV::Current(c), p) == c,
        doc_after_load(StoredDocV::Current(c)) == StoredDocV::Current(c),
{
}

} // verus!
