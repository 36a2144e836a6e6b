//! Switching cloud sync on and off, and switching it on again when the application starts.
use super::config;
use super::config::{CloudSyncConfig, CloudSyncConfigView, CloudSyncMode};
use super::credentials;
use super::credentials::{LoadKey, LoadKeyStepView, LoadKeyView};
use super::{APP_STATE_COLLECTION, CLOUD_PREFS_DOC, EVENT_CLOUD_SYNC_OFF, EVENT_CLOUD_SYNC_ON};
use crate::document;
use crate::document::DocView;
use crate::host;
use crate::host::{
    Reply, ReplyView, Step, StepView, StoreAction, StoreActionView, SyncAction, SyncActionView,
};
use crate::text;
use vstd::prelude::*;
use vstd::string::*;

verus! {

/// The answer when cloud sync is on.
pub const ON: &'static str = "ON";

/// The answer when cloud sync is off.
pub const OFF: &'static str = "OFF";

/// The address that a server binds where none is given.
pub const DEFAULT_BIND_ADDR: &'static str = "0.0.0.0:8056";

/// The server that a client joins where none is given.
pub const DEFAULT_SERVER_URL: &'static str = "ws://127.0.0.1:8056";

/// The room that a client joins where none is given.
pub const DEFAULT_ROOM_NAME: &'static str = "default";

/// What precedes the error of a server that did not start.
pub const SERVER_START_FAILED: &'static str = "cloud sync server start failed: ";

/// What precedes the error of a client that did not start.
pub const CLIENT_START_FAILED: &'static str = "cloud sync client start failed: ";

/// How a cloud syncer is made, and where it starts.
pub enum CloudStart {
    /// Hosts the hub; `address` is the address to bind.
    Server { self_id: String, auth_token: String, address: String },
    /// Joins a room; `address` is the server's URL.
    Client {
        self_id: String,
        room_name: String,
        room_key: String,
        auth_token: String,
        address: String,
    },
}

/// The content of a [`CloudStart`].
pub enum CloudStartView {
    Server { self_id: Seq<char>, auth_token: Seq<char>, address: Seq<char> },
    Client {
        self_id: Seq<char>,
        room_name: Seq<char>,
        room_key: Seq<char>,
        auth_token: Seq<char>,
        address: Seq<char>,
    },
}

impl DeepView for CloudStart {
    type V = CloudStartView;

    open spec fn deep_view(&self) -> CloudStartView {
        match self {
            CloudStart::Server { self_id, auth_token, address } => CloudStartView::Server {
                self_id: self_id@,
                auth_token: auth_token@,
                address: address@,
            },
            CloudStart::Client { self_id, room_name, room_key, auth_token, address } =>
            CloudStartView::Client {
                self_id: self_id@,
                room_name: room_name@,
                room_key: room_key@,
                auth_token: auth_token@,
                address: address@,
            },
        }
    }
}

/// A text, or the given one where there is none.
pub open spec fn or_else(t: Option<Seq<char>>, default: Seq<char>) -> Seq<char> {
    match t {
        Some(s) => s,
        None => default,
    }
}

fn text_or(t: Option<String>, default: &str) -> (s: String)
    ensures
        s@ == or_else(t.deep_view(), default@),
{
    match t {
        Some(s) => s,
        None => default.to_string(),
    }
}

/// How the syncer for the given settings is made.
pub open spec fn start_for(config: CloudSyncConfigView, self_id: Seq<char>) -> CloudStartView {
    match config.mode {
        CloudSyncMode::Server => CloudStartView::Server {
            self_id,
            auth_token: config.auth_token,
            address: or_else(config.bind_addr, DEFAULT_BIND_ADDR@),
        },
        CloudSyncMode::Client => CloudStartView::Client {
            self_id,
            room_name: or_else(config.room_name, DEFAULT_ROOM_NAME@),
            room_key: or_else(config.room_key, Seq::empty()),
            auth_token: config.auth_token,
            address: or_else(config.server_url, DEFAULT_SERVER_URL@),
        },
    }
}

fn make_start(config: CloudSyncConfig, self_id: String) -> (r: (CloudStart, Option<String>))
    ensures
        r.0.deep_view() == start_for(config.deep_view(), self_id@),
        r.1.deep_view() == config.deep_view().api_key,
{
    let start = match config.mode {
        CloudSyncMode::Server => CloudStart::Server {
            self_id,
            auth_token: config.auth_token,
            address: text_or(config.bind_addr, DEFAULT_BIND_ADDR),
        },
        CloudSyncMode::Client => CloudStart::Client {
            self_id,
            room_name: text_or(config.room_name, DEFAULT_ROOM_NAME),
            room_key: match config.room_key {
                Some(key) => key,
                None => String::new(),
            },
            auth_token: config.auth_token,
            address: text_or(config.server_url, DEFAULT_SERVER_URL),
        },
    };
    (start, config.api_key)
}

/// The message for a syncer that did not start.
pub open spec fn start_failure(mode: CloudSyncMode, error: Seq<char>) -> Seq<char> {
    match mode {
        CloudSyncMode::Server => SERVER_START_FAILED@ + error,
        CloudSyncMode::Client => CLIENT_START_FAILED@ + error,
    }
}

/// A request to switch cloud sync: the settings wanted, the device's id, and whether a syncer
/// runs already.
pub struct CloudRequest {
    pub config: CloudSyncConfig,
    pub self_id: String,
    pub running: bool,
}

/// The content of a [`CloudRequest`].
pub struct CloudRequestView {
    pub config: CloudSyncConfigView,
    pub self_id: Seq<char>,
    pub running: bool,
}

impl DeepView for CloudRequest {
    type V = CloudRequestView;

    open spec fn deep_view(&self) -> CloudRequestView {
        CloudRequestView {
            config: self.config.deep_view(),
            self_id: self.self_id@,
            running: self.running,
        }
    }
}

/// The request with its API key settled.
pub open spec fn with_key(request: CloudRequestView, api_key: Option<Seq<char>>) -> CloudRequestView {
    CloudRequestView { config: CloudSyncConfigView { api_key, ..request.config }, ..request }
}

/// The command that switches cloud sync, waiting for a reply.
pub enum CloudToggle {
    /// Waits for the key that came with the request to be saved.
    SaveKey(CloudRequest),
    /// Loads the saved key.
    LoadKey(CloudRequest, LoadKey),
    /// Waits for the settings that were saved before; `fresh` tells that the key came with the
    /// request.
    ReadPrefs { request: CloudRequest, fresh: bool },
    /// Waits for the settings to be written: the new ones, or those saved before without a key.
    WritePrefs(CloudRequest),
    /// Waits for the syncer to stop.
    Stop,
    /// Waits for the windows to be told that sync is off.
    AnnounceOff,
    /// Waits for the syncer to be made, to hand it the key.
    Make { mode: CloudSyncMode, api_key: Option<String> },
    /// Waits for the syncer to take the key.
    SetKey(CloudSyncMode),
    /// Waits for the syncer to start.
    Start(CloudSyncMode),
    /// Waits for the windows to be told that sync is on.
    AnnounceOn,
}

/// The content of a [`CloudToggle`].
pub enum CloudToggleView {
    SaveKey(CloudRequestView),
    LoadKey(CloudRequestView, LoadKeyView),
    ReadPrefs { request: CloudRequestView, fresh: bool },
    WritePrefs(CloudRequestView),
    Stop,
    AnnounceOff,
    Make { mode: CloudSyncMode, api_key: Option<Seq<char>> },
    SetKey(CloudSyncMode),
    Start(CloudSyncMode),
    AnnounceOn,
}

impl DeepView for CloudToggle {
    type V = CloudToggleView;

    open spec fn deep_view(&self) -> CloudToggleView {
        match self {
            CloudToggle::SaveKey(request) => CloudToggleView::SaveKey(request.deep_view()),
            CloudToggle::LoadKey(request, load) => CloudToggleView::LoadKey(
                request.deep_view(),
                load.deep_view(),
            ),
            CloudToggle::ReadPrefs { request, fresh } => CloudToggleView::ReadPrefs {
                request: request.deep_view(),
                fresh: *fresh,
            },
            CloudToggle::WritePrefs(request) => CloudToggleView::WritePrefs(request.deep_view()),
            CloudToggle::Stop => CloudToggleView::Stop,
            CloudToggle::AnnounceOff => CloudToggleView::AnnounceOff,
            CloudToggle::Make { mode, api_key } => CloudToggleView::Make {
                mode: *mode,
                api_key: api_key.deep_view(),
            },
            CloudToggle::SetKey(mode) => CloudToggleView::SetKey(*mode),
            CloudToggle::Start(mode) => CloudToggleView::Start(*mode),
            CloudToggle::AnnounceOn => CloudToggleView::AnnounceOn,
        }
    }
}

/// Where the switching stands, in content.
pub type CloudToggleStepView = StepView<
    CloudToggleView,
    SyncActionView<CloudStartView>,
    Seq<char>,
>;

/// Where the switching stands.
pub type CloudToggleStep = Step<CloudToggle, SyncAction<CloudStart>, String>;

/// The switching goes on with the settings that were saved before.
pub open spec fn toggle_keyed(request: CloudRequestView, fresh: bool) -> CloudToggleStepView {
    StepView::Do(
        CloudToggleView::ReadPrefs { request, fresh },
        SyncActionView::Store(
            StoreActionView::Get { collection: APP_STATE_COLLECTION@, id: CLOUD_PREFS_DOC@ },
        ),
    )
}

/// A step of loading the key, as a step of the switching.
pub open spec fn toggle_loading(
    request: CloudRequestView,
    step: LoadKeyStepView,
) -> CloudToggleStepView {
    match step {
        StepView::Do(load, action) => StepView::Do(
            CloudToggleView::LoadKey(request, load),
            SyncActionView::Store(action),
        ),
        StepView::Done(api_key) => toggle_keyed(with_key(request, api_key), false),
        StepView::Fail(message) => StepView::Fail(message),
    }
}

/// How the switching starts: a key that comes with the request is saved and used, or else the
/// saved key is loaded.
pub open spec fn toggle_start(request: CloudRequestView) -> CloudToggleStepView {
    match text::non_empty(request.config.api_key) {
        Some(key) => StepView::Do(
            CloudToggleView::SaveKey(request),
            SyncActionView::Store(credentials::save_key_action(Some(key))),
        ),
        None => toggle_loading(request, credentials::load_key_start()),
    }
}

/// What is left of the switching once the settings are saved: a syncer that runs is stopped
/// or kept, and one is made and started where none runs and sync is wanted.
pub open spec fn toggle_settled(request: CloudRequestView) -> CloudToggleStepView {
    if !request.config.enabled {
        if request.running {
            StepView::Do(CloudToggleView::Stop, SyncActionView::Stop)
        } else {
            StepView::Do(
                CloudToggleView::AnnounceOff,
                SyncActionView::Emit(EVENT_CLOUD_SYNC_OFF@),
            )
        }
    } else if request.running {
        StepView::Done(ON@)
    } else {
        StepView::Do(
            CloudToggleView::Make { mode: request.config.mode, api_key: request.config.api_key },
            SyncActionView::Make(start_for(request.config, request.self_id)),
        )
    }
}

/// Whether the settings that a reply holds have sync switched on.
pub open spec fn enabled_in(reply: ReplyView) -> bool {
    host::doc_of(reply) matches Some(doc) && document::flag_field(doc, "enabled"@)
}

/// The settings that a reply holds, where they hold a key.
pub open spec fn prefs_with_key(reply: ReplyView) -> Option<DocView> {
    match host::doc_of(reply) {
        Some(doc) if doc.contains_key("api_key"@) => Some(doc),
        _ => None,
    }
}

/// How the switching goes on after a reply. The settings are saved only where they switch
/// sync over. Where they stay and a key came with the request, a key that an older installation
/// left in them is taken out: it would replicate, and would be loaded in place of the new one.
/// The syncer is handed its key before it starts, so that the first handshake carries it.
pub open spec fn toggle_next(waiting: CloudToggleView, reply: ReplyView) -> CloudToggleStepView {
    match waiting {
        CloudToggleView::SaveKey(request) => toggle_keyed(request, true),
        CloudToggleView::LoadKey(request, load) => toggle_loading(
            request,
            credentials::load_key_next(load, reply),
        ),
        CloudToggleView::ReadPrefs { request, fresh } => if request.config.enabled != enabled_in(
            reply,
        ) {
            StepView::Do(
                CloudToggleView::WritePrefs(request),
                SyncActionView::Store(config::save_config_action(request.config)),
            )
        } else {
            match prefs_with_key(reply) {
                Some(prefs) if fresh => StepView::Do(
                    CloudToggleView::WritePrefs(request),
                    SyncActionView::Store(
                        StoreActionView::Put {
                            collection: APP_STATE_COLLECTION@,
                            id: CLOUD_PREFS_DOC@,
                            doc: prefs.remove("api_key"@),
                        },
                    ),
                ),
                _ => toggle_settled(request),
            }
        },
        CloudToggleView::WritePrefs(request) => toggle_settled(request),
        CloudToggleView::Stop => StepView::Do(
            CloudToggleView::AnnounceOff,
            SyncActionView::Emit(EVENT_CLOUD_SYNC_OFF@),
        ),
        CloudToggleView::AnnounceOff => StepView::Done(OFF@),
        CloudToggleView::Make { mode, api_key } => StepView::Do(
            CloudToggleView::SetKey(mode),
            SyncActionView::SetKey(api_key),
        ),
        CloudToggleView::SetKey(mode) => StepView::Do(
            CloudToggleView::Start(mode),
            SyncActionView::Start,
        ),
        CloudToggleView::Start(mode) => match reply {
            ReplyView::Failed(error) => StepView::Fail(start_failure(mode, error)),
            _ => StepView::Do(
                CloudToggleView::AnnounceOn,
                SyncActionView::Emit(EVENT_CLOUD_SYNC_ON@),
            ),
        },
        CloudToggleView::AnnounceOn => StepView::Done(ON@),
    }
}

fn keyed(request: CloudRequest, fresh: bool) -> (step: CloudToggleStep)
    ensures
        step.deep_view() == toggle_keyed(request.deep_view(), fresh),
{
    Step::Do(
        CloudToggle::ReadPrefs { request, fresh },
        SyncAction::Store(host::get(APP_STATE_COLLECTION, CLOUD_PREFS_DOC)),
    )
}

fn loading(request: CloudRequest, step: Step<LoadKey, StoreAction, Option<String>>) -> (r:
    CloudToggleStep)
    ensures
        r.deep_view() == toggle_loading(request.deep_view(), step.deep_view()),
{
    match step {
        Step::Do(load, action) => Step::Do(
            CloudToggle::LoadKey(request, load),
            SyncAction::Store(action),
        ),
        Step::Done(api_key) => keyed(
            CloudRequest {
                config: CloudSyncConfig { api_key, ..request.config },
                self_id: request.self_id,
                running: request.running,
            },
            false,
        ),
        Step::Fail(message) => Step::Fail(message),
    }
}

fn settled(request: CloudRequest) -> (step: CloudToggleStep)
    ensures
        step.deep_view() == toggle_settled(request.deep_view()),
{
    if !request.config.enabled {
        if request.running {
            Step::Do(CloudToggle::Stop, SyncAction::Stop)
        } else {
            Step::Do(CloudToggle::AnnounceOff, SyncAction::Emit(EVENT_CLOUD_SYNC_OFF.to_string()))
        }
    } else if request.running {
        Step::Done(ON.to_string())
    } else {
        let mode = request.config.mode;
        let (start, api_key) = make_start(request.config, request.self_id);
        Step::Do(CloudToggle::Make { mode, api_key }, SyncAction::Make(start))
    }
}

fn begin(request: CloudRequest) -> (step: CloudToggleStep)
    ensures
        step.deep_view() == toggle_start(request.deep_view()),
{
    if let Some(key) = &request.config.api_key {
        if !key.as_str().is_empty() {
            let action = credentials::save_api_key(Some(key.as_str()));
            return Step::Do(CloudToggle::SaveKey(request), SyncAction::Store(action));
        }
    }
    loading(request, credentials::load_api_key())
}

/// Switches cloud sync on or off. `running` tells whether a syncer runs. A client joins
/// `server_url`, a server binds `bind_addr`. A key that is given is saved outside the
/// replicating collection and wins over every key that was saved before.
pub fn toggle_cloud_sync(
    enabled: bool,
    mode: &str,
    server_url: Option<String>,
    bind_addr: Option<String>,
    room_name: Option<String>,
    room_key: Option<String>,
    auth_token: String,
    api_key: Option<String>,
    self_id: String,
    running: bool,
) -> (step: CloudToggleStep)
    ensures
        step.deep_view() == toggle_start(
            CloudRequestView {
                config: CloudSyncConfigView {
                    enabled,
                    mode: config::mode_named(mode@),
                    server_url: server_url.deep_view(),
                    bind_addr: bind_addr.deep_view(),
                    room_name: room_name.deep_view(),
                    room_key: room_key.deep_view(),
                    auth_token: auth_token@,
                    api_key: api_key.deep_view(),
                },
                self_id: self_id@,
                running,
            },
        ),
{
    let mode = config::parse_mode(mode);
    let config = CloudSyncConfig {
        enabled,
        mode,
        server_url,
        bind_addr,
        room_name,
        room_key,
        auth_token,
        api_key,
    };
    begin(CloudRequest { config, self_id, running })
}

impl CloudToggle {
    /// Goes on after a reply.
    pub fn next(self, reply: Reply) -> (step: CloudToggleStep)
        ensures
            step.deep_view() == toggle_next(self.deep_view(), reply.deep_view()),
    {
        match self {
            CloudToggle::SaveKey(request) => keyed(request, true),
            CloudToggle::LoadKey(request, load) => loading(request, load.next(reply)),
            CloudToggle::ReadPrefs { request, fresh } => {
                let prefs = reply.into_doc();
                let enabled = match &prefs {
                    Some(doc) => doc.flag("enabled"),
                    None => false,
                };
                if request.config.enabled != enabled {
                    let action = config::save_config(&request.config);
                    return Step::Do(CloudToggle::WritePrefs(request), SyncAction::Store(action));
                }
                if fresh {
                    if let Some(mut doc) = prefs {
                        if doc.remove("api_key").is_some() {
                            let action = host::put(APP_STATE_COLLECTION, CLOUD_PREFS_DOC, doc);
                            return Step::Do(
                                CloudToggle::WritePrefs(request),
                                SyncAction::Store(action),
                            );
                        }
                    }
                }
                settled(request)
            },
            CloudToggle::WritePrefs(request) => settled(request),
            CloudToggle::Stop => Step::Do(
                CloudToggle::AnnounceOff,
                SyncAction::Emit(EVENT_CLOUD_SYNC_OFF.to_string()),
            ),
            CloudToggle::AnnounceOff => Step::Done(OFF.to_string()),
            CloudToggle::Make { mode, api_key } => Step::Do(
                CloudToggle::SetKey(mode),
                SyncAction::SetKey(api_key),
            ),
            CloudToggle::SetKey(mode) => Step::Do(CloudToggle::Start(mode), SyncAction::Start),
            CloudToggle::Start(mode) => match reply {
                Reply::Failed(error) => {
                    let message = match mode {
                        CloudSyncMode::Server => SERVER_START_FAILED.to_string(),
                        CloudSyncMode::Client => CLIENT_START_FAILED.to_string(),
                    };
                    Step::Fail(message.concat(error.as_str()))
                },
                _ => Step::Do(
                    CloudToggle::AnnounceOn,
                    SyncAction::Emit(EVENT_CLOUD_SYNC_ON.to_string()),
                ),
            },
            CloudToggle::AnnounceOn => Step::Done(ON.to_string()),
        }
    }
}

/// The command that switches cloud sync on when the application starts, waiting for a reply.
pub enum CloudBoot {
    /// Waits for the settings document.
    ReadPrefs { self_id: String, running: bool },
    /// Loads the saved key.
    LoadKey(CloudRequest, LoadKey),
    /// Switches cloud sync on.
    Toggle(CloudToggle),
}

/// The content of a [`CloudBoot`].
pub enum CloudBootView {
    ReadPrefs { self_id: Seq<char>, running: bool },
    LoadKey(CloudRequestView, LoadKeyView),
    Toggle(CloudToggleView),
}

impl DeepView for CloudBoot {
    type V = CloudBootView;

    open spec fn deep_view(&self) -> CloudBootView {
        match self {
            CloudBoot::ReadPrefs { self_id, running } => CloudBootView::ReadPrefs {
                self_id: self_id@,
                running: *running,
            },
            CloudBoot::LoadKey(request, load) => CloudBootView::LoadKey(
                request.deep_view(),
                load.deep_view(),
            ),
            CloudBoot::Toggle(toggle) => CloudBootView::Toggle(toggle.deep_view()),
        }
    }
}

/// Where the switching on at the start stands, in content.
pub type CloudBootStepView = StepView<CloudBootView, SyncActionView<CloudStartView>, ()>;

/// Where the switching on at the start stands.
pub type CloudBootStep = Step<CloudBoot, SyncAction<CloudStart>, ()>;

/// The switching on at the start begins with a look at the settings.
pub open spec fn boot_start(self_id: Seq<char>, running: bool) -> CloudBootStepView {
    StepView::Do(
        CloudBootView::ReadPrefs { self_id, running },
        SyncActionView::Store(
            StoreActionView::Get { collection: APP_STATE_COLLECTION@, id: CLOUD_PREFS_DOC@ },
        ),
    )
}

/// A step of the switching, as a step of the start; what the switching answers is dropped.
pub open spec fn boot_toggling(step: CloudToggleStepView) -> CloudBootStepView {
    match step {
        StepView::Do(toggle, action) => StepView::Do(CloudBootView::Toggle(toggle), action),
        _ => StepView::Done(()),
    }
}

/// A step of loading the key, as a step of the start.
pub open spec fn boot_loading(request: CloudRequestView, step: LoadKeyStepView) -> CloudBootStepView {
    match step {
        StepView::Do(load, action) => StepView::Do(
            CloudBootView::LoadKey(request, load),
            SyncActionView::Store(action),
        ),
        StepView::Done(api_key) => boot_toggling(toggle_start(with_key(request, api_key))),
        StepView::Fail(message) => StepView::Fail(message),
    }
}

/// How the switching on at the start goes on after a reply: where the settings have sync
/// switched on, it is switched on with them.
pub open spec fn boot_next(waiting: CloudBootView, reply: ReplyView) -> CloudBootStepView {
    match waiting {
        CloudBootView::ReadPrefs { self_id, running } => if enabled_in(reply) {
            boot_loading(
                CloudRequestView {
                    config: config::config_of(host::doc_of(reply)->0, None),
                    self_id,
                    running,
                },
                credentials::load_key_start(),
            )
        } else {
            StepView::Done(())
        },
        CloudBootView::LoadKey(request, load) => boot_loading(
            request,
            credentials::load_key_next(load, reply),
        ),
        CloudBootView::Toggle(toggle) => boot_toggling(toggle_next(toggle, reply)),
    }
}

fn toggling(step: CloudToggleStep) -> (r: CloudBootStep)
    ensures
        r.deep_view() == boot_toggling(step.deep_view()),
{
    match step {
        Step::Do(toggle, action) => Step::Do(CloudBoot::Toggle(toggle), action),
        _ => Step::Done(()),
    }
}

fn booting(request: CloudRequest, step: Step<LoadKey, StoreAction, Option<String>>) -> (r:
    CloudBootStep)
    ensures
        r.deep_view() == boot_loading(request.deep_view(), step.deep_view()),
{
    match step {
        Step::Do(load, action) => Step::Do(
            CloudBoot::LoadKey(request, load),
            SyncAction::Store(action),
        ),
        Step::Done(api_key) => toggling(
            begin(
                CloudRequest {
                    config: CloudSyncConfig { api_key, ..request.config },
                    self_id: request.self_id,
                    running: request.running,
                },
            ),
        ),
        Step::Fail(message) => Step::Fail(message),
    }
}

/// Switches cloud sync on again when the application starts, if it was on before.
pub fn bootstrap_cloud_sync(self_id: String, running: bool) -> (step: CloudBootStep)
    ensures
        step.deep_view() == boot_start(self_id@, running),
{
    Step::Do(
        CloudBoot::ReadPrefs { self_id, running },
        SyncAction::Store(host::get(APP_STATE_COLLECTION, CLOUD_PREFS_DOC)),
    )
}

impl CloudBoot {
    /// Goes on after a reply.
    pub fn next(self, reply: Reply) -> (step: CloudBootStep)
        ensures
            step.deep_view() == boot_next(self.deep_view(), reply.deep_view()),
    {
        match self {
            CloudBoot::ReadPrefs { self_id, running } => {
                if let Some(doc) = reply.into_doc() {
                    if doc.flag("enabled") {
                        let config = config::read_config(&doc);
                        return booting(
                            CloudRequest { config, self_id, running },
                            credentials::load_api_key(),
                        );
                    }
                }
                Step::Done(())
            },
            CloudBoot::LoadKey(request, load) => booting(request, load.next(reply)),
            CloudBoot::Toggle(toggle) => toggling(toggle.next(reply)),
        }
    }
}

/// The content of what a syncer is made from is what its own fields hold.
pub proof fn law_starts_are_seen_whole(start: CloudStart)
    ensures
        start matches CloudStart::Server { self_id, auth_token, address } ==> {
            &&& start.deep_view() is Server
            &&& start.deep_view()->Server_self_id == self_id@
            &&& start.deep_view()->Server_auth_token == auth_token@
            &&& start.deep_view()->Server_address == address@
        },
        start matches CloudStart::Client { self_id, room_name, room_key, auth_token, address } ==> {
            &&& start.deep_view() is Client
            &&& start.deep_view()->Client_self_id == self_id@
            &&& start.deep_view()->room_name == room_name@
            &&& start.deep_view()->room_key == room_key@
            &&& start.deep_view()->Client_auth_token == auth_token@
            &&& start.deep_view()->Client_address == address@
        },
{
}

} // verus!
