//! The saved cloud sync settings.
use super::credentials;
use super::credentials::{LoadKey, LoadKeyStepView, LoadKeyView};
use super::{APP_STATE_COLLECTION, CLOUD_PREFS_DOC};
use crate::document;
use crate::document::{Doc, DocView, Value, ValueView};
use crate::host;
use crate::host::{Docs, Reply, ReplyView, Step, StepView, StoreAction, StoreActionView};
use crate::text;
use vstd::prelude::*;

verus! {

/// Whether this device hosts the cloud hub or joins one.
#[derive(Clone, Copy)]
pub enum CloudSyncMode {
    Server,
    Client,
}

impl DeepView for CloudSyncMode {
    type V = CloudSyncMode;

    open spec fn deep_view(&self) -> CloudSyncMode {
        *self
    }
}

/// The mode as it is stored.
pub open spec fn mode_text(mode: CloudSyncMode) -> Seq<char> {
    match mode {
        CloudSyncMode::Server => "server"@,
        CloudSyncMode::Client => "client"@,
    }
}

/// The mode that a text names: "server" in any case, or else the client's.
pub open spec fn mode_named(name: Seq<char>) -> CloudSyncMode {
    if text::same_but_for_case(name, "server"@) {
        CloudSyncMode::Server
    } else {
        CloudSyncMode::Client
    }
}

/// The name of a mode.
pub fn mode_to_str(mode: CloudSyncMode) -> (name: String)
    ensures
        name@ == mode_text(mode),
{
    match mode {
        CloudSyncMode::Server => "server".to_string(),
        CloudSyncMode::Client => "client".to_string(),
    }
}

/// Reads the name of a mode.
pub fn parse_mode(name: &str) -> (mode: CloudSyncMode)
    ensures
        mode == mode_named(name@),
{
    if text::eq_ignore_ascii_case(name, "server") {
        CloudSyncMode::Server
    } else {
        CloudSyncMode::Client
    }
}

/// The cloud sync settings. The API key is the group key that is presented at the handshake.
pub struct CloudSyncConfig {
    pub enabled: bool,
    pub mode: CloudSyncMode,
    pub server_url: Option<String>,
    pub bind_addr: Option<String>,
    pub room_name: Option<String>,
    pub room_key: Option<String>,
    pub auth_token: String,
    pub api_key: Option<String>,
}

/// The content of a [`CloudSyncConfig`].
pub struct CloudSyncConfigView {
    pub enabled: bool,
    pub mode: CloudSyncMode,
    pub server_url: Option<Seq<char>>,
    pub bind_addr: Option<Seq<char>>,
    pub room_name: Option<Seq<char>>,
    pub room_key: Option<Seq<char>>,
    pub auth_token: Seq<char>,
    pub api_key: Option<Seq<char>>,
}

impl DeepView for CloudSyncConfig {
    type V = CloudSyncConfigView;

    open spec fn deep_view(&self) -> CloudSyncConfigView {
        CloudSyncConfigView {
            enabled: self.enabled,
            mode: self.mode,
            server_url: self.server_url.deep_view(),
            bind_addr: self.bind_addr.deep_view(),
            room_name: self.room_name.deep_view(),
            room_key: self.room_key.deep_view(),
            auth_token: self.auth_token@,
            api_key: self.api_key.deep_view(),
        }
    }
}

/// A document with a text field added, if there is a text.
pub open spec fn with_text(doc: DocView, name: Seq<char>, t: Option<Seq<char>>) -> DocView {
    match t {
        Some(s) => doc.insert(name, ValueView::Text(s)),
        None => doc,
    }
}

/// The settings document: one field per setting that is there, and never the API key, since
/// the document replicates with the room.
pub open spec fn prefs_doc(config: CloudSyncConfigView) -> DocView {
    let doc = Map::empty().insert("enabled"@, ValueView::Bool(config.enabled)).insert(
        "mode"@,
        ValueView::Text(mode_text(config.mode)),
    );
    let doc = with_text(doc, "server_url"@, config.server_url);
    let doc = with_text(doc, "bind_addr"@, config.bind_addr);
    let doc = with_text(doc, "room_name"@, config.room_name);
    let doc = with_text(doc, "room_key"@, config.room_key);
    doc.insert("auth_token"@, ValueView::Text(config.auth_token))
}

/// The action that writes the settings document.
pub open spec fn save_config_action(config: CloudSyncConfigView) -> StoreActionView {
    StoreActionView::Put {
        collection: APP_STATE_COLLECTION@,
        id: CLOUD_PREFS_DOC@,
        doc: prefs_doc(config),
    }
}

fn insert_text(doc: &mut Doc, name: &str, t: &Option<String>)
    ensures
        final(doc)@ == with_text(old(doc)@, name@, t.deep_view()),
{
    if let Some(s) = t {
        doc.insert(name, Value::Text(s.clone()));
    }
}

/// Asks for the settings to be saved. The API key is not saved with them.
pub fn save_config(config: &CloudSyncConfig) -> (action: StoreAction)
    ensures
        action.deep_view() == save_config_action(config.deep_view()),
{
    let mut prefs = Doc::new();
    prefs.insert("enabled", Value::Bool(config.enabled));
    prefs.insert("mode", Value::Text(mode_to_str(config.mode)));
    insert_text(&mut prefs, "server_url", &config.server_url);
    insert_text(&mut prefs, "bind_addr", &config.bind_addr);
    insert_text(&mut prefs, "room_name", &config.room_name);
    insert_text(&mut prefs, "room_key", &config.room_key);
    prefs.insert("auth_token", Value::Text(config.auth_token.clone()));
    host::put(APP_STATE_COLLECTION, CLOUD_PREFS_DOC, prefs)
}

/// The settings that a document holds, with the given API key. Fields that are missing, or
/// of the wrong type, count as off, client, absent or empty.
pub open spec fn config_of(doc: DocView, api_key: Option<Seq<char>>) -> CloudSyncConfigView {
    CloudSyncConfigView {
        enabled: document::flag_field(doc, "enabled"@),
        mode: match document::text_field(doc, "mode"@) {
            Some(name) => mode_named(name),
            None => CloudSyncMode::Client,
        },
        server_url: document::text_field(doc, "server_url"@),
        bind_addr: document::text_field(doc, "bind_addr"@),
        room_name: document::text_field(doc, "room_name"@),
        room_key: document::text_field(doc, "room_key"@),
        auth_token: match document::text_field(doc, "auth_token"@) {
            Some(token) => token,
            None => Seq::empty(),
        },
        api_key,
    }
}

/// Reads the settings that a document holds, without the API key.
pub fn read_config(doc: &Doc) -> (config: CloudSyncConfig)
    ensures
        config.deep_view() == config_of(doc@, None),
{
    CloudSyncConfig {
        enabled: doc.flag("enabled"),
        mode: match doc.text("mode") {
            Some(name) => parse_mode(name.as_str()),
            None => CloudSyncMode::Client,
        },
        server_url: doc.text("server_url"),
        bind_addr: doc.text("bind_addr"),
        room_name: doc.text("room_name"),
        room_key: doc.text("room_key"),
        auth_token: match doc.text("auth_token") {
            Some(token) => token,
            None => String::new(),
        },
        api_key: None,
    }
}

/// The command that shows the saved settings, waiting for a reply.
pub enum GetConfig {
    /// Waits for the settings document.
    ReadPrefs,
    /// Has read the settings and loads the key.
    LoadKey(CloudSyncConfig, LoadKey),
}

/// The content of a [`GetConfig`].
pub enum GetConfigView {
    ReadPrefs,
    LoadKey(CloudSyncConfigView, LoadKeyView),
}

impl DeepView for GetConfig {
    type V = GetConfigView;

    open spec fn deep_view(&self) -> GetConfigView {
        match self {
            GetConfig::ReadPrefs => GetConfigView::ReadPrefs,
            GetConfig::LoadKey(config, load) => GetConfigView::LoadKey(
                config.deep_view(),
                load.deep_view(),
            ),
        }
    }
}

/// Where the showing of the settings stands, in content.
pub type GetConfigStepView = StepView<GetConfigView, StoreActionView, Option<CloudSyncConfigView>>;

/// Showing the settings starts with a look at them.
pub open spec fn get_config_start() -> GetConfigStepView {
    StepView::Do(
        GetConfigView::ReadPrefs,
        StoreActionView::Get { collection: APP_STATE_COLLECTION@, id: CLOUD_PREFS_DOC@ },
    )
}

/// A step of loading the key, as a step of showing the settings.
pub open spec fn config_with_key(
    config: CloudSyncConfigView,
    step: LoadKeyStepView,
) -> GetConfigStepView {
    match step {
        StepView::Do(load, action) => StepView::Do(GetConfigView::LoadKey(config, load), action),
        StepView::Done(api_key) => StepView::Done(Some(CloudSyncConfigView { api_key, ..config })),
        StepView::Fail(message) => StepView::Fail(message),
    }
}

/// How the showing of the settings goes on after a reply.
pub open spec fn get_config_next(waiting: GetConfigView, reply: ReplyView) -> GetConfigStepView {
    match waiting {
        GetConfigView::ReadPrefs => match host::doc_of(reply) {
            Some(doc) => config_with_key(config_of(doc, None), credentials::load_key_start()),
            None => StepView::Done(None),
        },
        GetConfigView::LoadKey(config, load) => config_with_key(
            config,
            credentials::load_key_next(load, reply),
        ),
    }
}

fn add_key(config: CloudSyncConfig, step: Step<LoadKey, StoreAction, Option<String>>) -> (r: Step<
    GetConfig,
    StoreAction,
    Option<CloudSyncConfig>,
>)
    ensures
        r.deep_view() == config_with_key(config.deep_view(), step.deep_view()),
{
    match step {
        Step::Do(load, action) => Step::Do(GetConfig::LoadKey(config, load), action),
        Step::Done(api_key) => Step::Done(Some(CloudSyncConfig { api_key, ..config })),
        Step::Fail(message) => Step::Fail(message),
    }
}

/// Shows the saved settings, the API key among them, if any were saved.
pub fn get_cloud_config() -> (step: Step<GetConfig, StoreAction, Option<CloudSyncConfig>>)
    ensures
        step.deep_view() == get_config_start(),
{
    Step::Do(GetConfig::ReadPrefs, host::get(APP_STATE_COLLECTION, CLOUD_PREFS_DOC))
}

impl GetConfig {
    /// Goes on after a reply.
    pub fn next(self, reply: Reply) -> (step: Step<GetConfig, StoreAction, Option<CloudSyncConfig>>)
        ensures
            step.deep_view() == get_config_next(self.deep_view(), reply.deep_view()),
    {
        match self {
            GetConfig::ReadPrefs => match reply.into_doc() {
                Some(doc) => add_key(read_config(&doc), credentials::load_api_key()),
                None => Step::Done(None),
            },
            GetConfig::LoadKey(config, load) => add_key(config, load.next(reply)),
        }
    }
}

proof fn lemma_config_field_names()
    ensures
        "enabled"@.len() == 7,
        "mode"@.len() == 4,
        "server_url"@.len() == 10,
        "bind_addr"@.len() == 9,
        "room_name"@.len() == 9,
        "room_key"@.len() == 8,
        "auth_token"@.len() == 10,
        "api_key"@.len() == 7,
        "server_url"@ != "auth_token"@,
        "bind_addr"@ != "room_name"@,
        "enabled"@ != "api_key"@,
{
    reveal_strlit("enabled");
    reveal_strlit("mode");
    reveal_strlit("server_url");
    reveal_strlit("bind_addr");
    reveal_strlit("room_name");
    reveal_strlit("room_key");
    reveal_strlit("auth_token");
    reveal_strlit("api_key");
    assert("server_url"@[0] != "auth_token"@[0]);
    assert("bind_addr"@[0] != "room_name"@[0]);
    assert("enabled"@[0] != "api_key"@[0]);
}

/// The stored name of a mode names that mode.
pub proof fn law_mode_names(mode: CloudSyncMode)
    ensures
        mode_named(mode_text(mode)) == mode,
{
    reveal_strlit("server");
    reveal_strlit("client");
    assert(text::folded("server"@[0]) != text::folded("client"@[0]));
}

/// Saved settings read back as they were, but for the API key, which the document does not
/// hold.
pub proof fn law_config_reads_back(config: CloudSyncConfigView)
    ensures
        config_of(prefs_doc(config), config.api_key) == config,
        !prefs_doc(config).contains_key("api_key"@),
{
    lemma_config_field_names();
    law_mode_names(config.mode);
    assert(prefs_doc(config).contains_key("enabled"@));
}

/// On a store that does not fail, showing the settings gives what the settings document
/// holds together with the key that the store holds, or nothing without such a document. A
/// key that the settings still hold is moved to the credentials.
pub proof fn law_get_cloud_config(docs: Docs)
    ensures
        host::run(
            |w: GetConfigView, r: ReplyView| get_config_next(w, r),
            get_config_start(),
            docs,
            4,
        ) == match host::doc_at(docs, APP_STATE_COLLECTION@, CLOUD_PREFS_DOC@) {
            Some(doc) => (
                credentials::migrated(docs),
                GetConfigStepView::Done(Some(config_of(doc, credentials::key_in_store(docs)))),
            ),
            None => (docs, GetConfigStepView::Done(None)),
        },
{
    reveal_with_fuel(host::run, 5);
}

/// A text names the server exactly where it consists of the six letters of "server", each of
/// them small or capital; every other text names the client.
pub proof fn law_server_is_named_in_any_case(name: Seq<char>)
    ensures
        mode_named(name) is Server <==> {
            &&& name.len() == 6
            &&& name[0] == 's' || name[0] == 'S'
            &&& name[1] == 'e' || name[1] == 'E'
            &&& name[2] == 'r' || name[2] == 'R'
            &&& name[3] == 'v' || name[3] == 'V'
            &&& name[4] == 'e' || name[4] == 'E'
            &&& name[5] == 'r' || name[5] == 'R'
        },
        mode_text(CloudSyncMode::Server) == "server"@,
        mode_text(CloudSyncMode::Client) == "client"@,
{
    reveal_strlit("server");
    let server = "server"@;
    assert(server.len() == 6);
    text::law_case_is_that_of_ascii_letters(name, server);
    if name.len() == 6 {
        if text::same_but_for_case(name, server) {
            assert(name[0] == server[0] || name[0] as int + 32 == server[0] as int);
            assert(name[1] == server[1] || name[1] as int + 32 == server[1] as int);
            assert(name[2] == server[2] || name[2] as int + 32 == server[2] as int);
            assert(name[3] == server[3] || name[3] as int + 32 == server[3] as int);
            assert(name[4] == server[4] || name[4] as int + 32 == server[4] as int);
            assert(name[5] == server[5] || name[5] as int + 32 == server[5] as int);
        }
    }
}

/// The settings document holds each setting under its own name: the switch as a flag, the mode
/// by its name, the token, each of the other settings exactly where it is there, and nothing
/// else.
pub proof fn law_settings_are_stored_under_their_names(docs: Docs, config: CloudSyncConfigView)
    ensures
        ({
            let place = ("app_state"@, "cloud_sync_prefs"@);
            let after = host::perform(docs, save_config_action(config)).0;
            let doc = after[place];
            &&& after == docs.insert(place, doc)
            &&& doc.contains_key("enabled"@) && doc["enabled"@] == ValueView::Bool(config.enabled)
            &&& doc.contains_key("mode"@) && doc["mode"@] == ValueView::Text(
                if config.mode is Server {
                    "server"@
                } else {
                    "client"@
                },
            )
            &&& doc.contains_key("auth_token"@) && doc["auth_token"@] == ValueView::Text(
                config.auth_token,
            )
            &&& doc.contains_key("server_url"@) <==> config.server_url is Some
            &&& config.server_url matches Some(t) ==> doc["server_url"@] == ValueView::Text(t)
            &&& doc.contains_key("bind_addr"@) <==> config.bind_addr is Some
            &&& config.bind_addr matches Some(t) ==> doc["bind_addr"@] == ValueView::Text(t)
            &&& doc.contains_key("room_name"@) <==> config.room_name is Some
            &&& config.room_name matches Some(t) ==> doc["room_name"@] == ValueView::Text(t)
            &&& doc.contains_key("room_key"@) <==> config.room_key is Some
            &&& config.room_key matches Some(t) ==> doc["room_key"@] == ValueView::Text(t)
            &&& forall|name: Seq<char>| #[trigger]
                doc.contains_key(name) ==> {
                    ||| name == "enabled"@
                    ||| name == "mode"@
                    ||| name == "auth_token"@
                    ||| name == "server_url"@
                    ||| name == "bind_addr"@
                    ||| name == "room_name"@
                    ||| name == "room_key"@
                }
        }),
{
    lemma_config_field_names();
}

/// The settings that a document holds are those in the fields of their names: the switch where
/// it is a flag, the others where they are texts; the mode is the client's and the token empty
/// where there is no text.
pub proof fn law_settings_are_read_by_their_names(doc: DocView, api_key: Option<Seq<char>>)
    ensures
        ({
            let config = config_of(doc, api_key);
            &&& config.enabled <==> doc.contains_key("enabled"@) && doc["enabled"@]
                == ValueView::Bool(true)
            &&& config.mode == if doc.contains_key("mode"@) && doc["mode"@] is Text {
                mode_named(doc["mode"@]->Text_0)
            } else {
                CloudSyncMode::Client
            }
            &&& config.server_url == if doc.contains_key("server_url"@) && doc["server_url"@] is Text {
                Some(doc["server_url"@]->Text_0)
            } else {
                None
            }
            &&& config.bind_addr == if doc.contains_key("bind_addr"@) && doc["bind_addr"@] is Text {
                Some(doc["bind_addr"@]->Text_0)
            } else {
                None
            }
            &&& config.room_name == if doc.contains_key("room_name"@) && doc["room_name"@] is Text {
                Some(doc["room_name"@]->Text_0)
            } else {
                None
            }
            &&& config.room_key == if doc.contains_key("room_key"@) && doc["room_key"@] is Text {
                Some(doc["room_key"@]->Text_0)
            } else {
                None
            }
            &&& config.auth_token == if doc.contains_key("auth_token"@) && doc["auth_token"@] is Text {
                doc["auth_token"@]->Text_0
            } else {
                Seq::empty()
            }
            &&& config.api_key == api_key
        }),
{
}

/// Showing the settings gives none exactly where there is no settings document, and otherwise
/// the settings that the document holds together with the key that loading it gives.
pub proof fn law_settings_are_shown_with_the_key(docs: Docs)
    ensures
        ({
            let prefs = ("app_state"@, "cloud_sync_prefs"@);
            let shown = host::run(
                |w: GetConfigView, r: ReplyView| get_config_next(w, r),
                get_config_start(),
                docs,
                4,
            );
            let loaded = host::run(
                |w: LoadKeyView, r: ReplyView| credentials::load_key_next(w, r),
                credentials::load_key_start(),
                docs,
                3,
            );
            if docs.contains_key(prefs) {
                &&& shown.0 == loaded.0
                &&& loaded.1 matches StepView::Done(key) && shown.1 == GetConfigStepView::Done(
                    Some(config_of(docs[prefs], key)),
                )
            } else {
                shown == (docs, GetConfigStepView::Done(None))
            }
        }),
{
    law_get_cloud_config(docs);
    credentials::law_load_api_key(docs);
}

/// A read that fails is to the showing as if the document were missing, and a write that fails
/// as if it were done.
pub proof fn law_failures_do_not_stop_the_showing(waiting: GetConfigView, error: Seq<char>)
    ensures
        get_config_next(waiting, ReplyView::Failed(error)) == get_config_next(
            waiting,
            ReplyView::Missing,
        ),
        get_config_next(waiting, ReplyView::Failed(error)) == get_config_next(
            waiting,
            ReplyView::Done,
        ),
{
}

/// The content of the settings is what their own fields hold.
pub proof fn law_settings_are_seen_whole(config: CloudSyncConfig)
    ensures
        config.deep_view().enabled == config.enabled,
        config.deep_view().mode == config.mode,
        config.deep_view().server_url == config.server_url.deep_view(),
        config.deep_view().bind_addr == config.bind_addr.deep_view(),
        config.deep_view().room_name == config.room_name.deep_view(),
        config.deep_view().room_key == config.room_key.deep_view(),
        config.deep_view().auth_token == config.auth_token@,
        config.deep_view().api_key == config.api_key.deep_view(),
{
}

} // verus!
