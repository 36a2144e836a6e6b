//! Switching mesh sync on and off, and switching it on again when the application starts.
use super::{
    APP_STATE_COLLECTION, EVENT_SYNC_OFF, EVENT_SYNC_ON, FALLBACK_ROOM_KEY, NET_GROUP_DOC,
    NET_PREFS_DOC,
};
use crate::document;
use crate::document::{Doc, DocView, Value, ValueView};
use crate::host;
use crate::host::{
    Docs, HostView, Reply, ReplyView, Step, StepView, StoreActionView, SyncAction, SyncActionView,
    SyncerView,
};
use crate::text;
use vstd::prelude::*;

verus! {

/// The answer when mesh sync is on.
pub const ON: &'static str = "ON";

/// The answer when mesh sync is off.
pub const OFF: &'static str = "OFF";

/// The room key that a group document holds, if it holds one that is not empty.
pub open spec fn room_key_in(group: Option<DocView>) -> Option<Seq<char>> {
    match group {
        Some(doc) => text::non_empty(document::text_field(doc, "room_key"@)),
        None => None,
    }
}

/// Reads the room key of the group that this device joined from the group document.
pub fn read_room_key(group: &Option<Doc>) -> (key: Option<String>)
    ensures
        key.deep_view() == room_key_in(group.deep_view()),
{
    match group {
        Some(doc) => text::keep_non_empty(doc.text("room_key")),
        None => None,
    }
}

/// How a mesh syncer is made, and the port at which it starts.
pub struct NetStart {
    pub self_id: String,
    pub room_key: String,
    pub excluded: Vec<String>,
    pub port: u16,
}

/// The content of a [`NetStart`].
pub struct NetStartView {
    pub self_id: Seq<char>,
    pub room_key: Seq<char>,
    pub excluded: Seq<Seq<char>>,
    pub port: u16,
}

impl DeepView for NetStart {
    type V = NetStartView;

    open spec fn deep_view(&self) -> NetStartView {
        NetStartView {
            self_id: self.self_id@,
            room_key: self.room_key@,
            excluded: self.excluded.deep_view(),
            port: self.port,
        }
    }
}

/// A request to switch mesh sync. `running` tells whether a syncer runs.
pub struct NetRequest {
    pub enabled: bool,
    pub port: u16,
    pub self_id: String,
    pub room_key: Option<String>,
    pub excluded: Option<Vec<String>>,
    pub running: bool,
}

/// The content of a [`NetRequest`].
pub struct NetRequestView {
    pub enabled: bool,
    pub port: u16,
    pub self_id: Seq<char>,
    pub room_key: Option<Seq<char>>,
    pub excluded: Option<Seq<Seq<char>>>,
    pub running: bool,
}

impl DeepView for NetRequest {
    type V = NetRequestView;

    open spec fn deep_view(&self) -> NetRequestView {
        NetRequestView {
            enabled: self.enabled,
            port: self.port,
            self_id: self.self_id@,
            room_key: self.room_key.deep_view(),
            excluded: self.excluded.deep_view(),
            running: self.running,
        }
    }
}

/// The collections that are left out of sync: the given ones, or else the application state.
pub open spec fn excluded_for(excluded: Option<Seq<Seq<char>>>) -> Seq<Seq<char>> {
    match excluded {
        Some(collections) => collections,
        None => seq![APP_STATE_COLLECTION@],
    }
}

/// How the syncer for a request is made, in the room with the given key.
pub open spec fn start_in_room(request: NetRequestView, room_key: Seq<char>) -> NetStartView {
    NetStartView {
        self_id: request.self_id,
        room_key,
        excluded: excluded_for(request.excluded),
        port: request.port,
    }
}

/// The command that switches mesh sync, waiting for a reply.
pub enum NetToggle {
    /// Waits for the document that remembers whether sync is on.
    ReadPrefs(NetRequest),
    /// Waits for that document to be written.
    WritePrefs(NetRequest),
    /// Waits for the group document.
    ReadGroup(NetRequest),
    /// Waits for the syncer to stop.
    Stop,
    /// Waits for the windows to be told that sync is off.
    AnnounceOff,
    /// Waits for the syncer to be made.
    Make,
    /// Waits for the syncer to start.
    Start,
    /// Waits for the windows to be told that sync is on.
    AnnounceOn,
}

/// The content of a [`NetToggle`].
pub enum NetToggleView {
    ReadPrefs(NetRequestView),
    WritePrefs(NetRequestView),
    ReadGroup(NetRequestView),
    Stop,
    AnnounceOff,
    Make,
    Start,
    AnnounceOn,
}

impl DeepView for NetToggle {
    type V = NetToggleView;

    open spec fn deep_view(&self) -> NetToggleView {
        match self {
            NetToggle::ReadPrefs(request) => NetToggleView::ReadPrefs(request.deep_view()),
            NetToggle::WritePrefs(request) => NetToggleView::WritePrefs(request.deep_view()),
            NetToggle::ReadGroup(request) => NetToggleView::ReadGroup(request.deep_view()),
            NetToggle::Stop => NetToggleView::Stop,
            NetToggle::AnnounceOff => NetToggleView::AnnounceOff,
            NetToggle::Make => NetToggleView::Make,
            NetToggle::Start => NetToggleView::Start,
            NetToggle::AnnounceOn => NetToggleView::AnnounceOn,
        }
    }
}

/// Where the switching stands, in content.
pub type NetToggleStepView = StepView<NetToggleView, SyncActionView<NetStartView>, Seq<char>>;

/// Where the switching stands.
pub type NetToggleStep = Step<NetToggle, SyncAction<NetStart>, String>;

/// The document that remembers whether sync is on.
pub open spec fn net_prefs(enabled: bool) -> DocView {
    Map::empty().insert("enabled"@, ValueView::Bool(enabled))
}

/// How the switching starts.
pub open spec fn toggle_start(request: NetRequestView) -> NetToggleStepView {
    StepView::Do(
        NetToggleView::ReadPrefs(request),
        SyncActionView::Store(
            StoreActionView::Get { collection: APP_STATE_COLLECTION@, id: NET_PREFS_DOC@ },
        ),
    )
}

/// The step that makes the syncer.
pub open spec fn toggle_starting(request: NetRequestView, room_key: Seq<char>) -> NetToggleStepView {
    StepView::Do(NetToggleView::Make, SyncActionView::Make(start_in_room(request, room_key)))
}

/// What is left of the switching once it is remembered: a syncer that runs is stopped or kept,
/// and one is made and started where none runs and sync is wanted, in the room of the request or else
/// in that of the group document.
pub open spec fn toggle_settled(request: NetRequestView) -> NetToggleStepView {
    if !request.enabled {
        if request.running {
            StepView::Do(NetToggleView::Stop, SyncActionView::Stop)
        } else {
            StepView::Do(NetToggleView::AnnounceOff, SyncActionView::Emit(EVENT_SYNC_OFF@))
        }
    } else if request.running {
        StepView::Done(ON@)
    } else {
        match text::non_empty(request.room_key) {
            Some(room_key) => toggle_starting(request, room_key),
            None => StepView::Do(
                NetToggleView::ReadGroup(request),
                SyncActionView::Store(
                    StoreActionView::Get { collection: APP_STATE_COLLECTION@, id: NET_GROUP_DOC@ },
                ),
            ),
        }
    }
}

/// Whether the document that a reply holds remembers sync as on.
pub open spec fn enabled_in(reply: ReplyView) -> bool {
    host::doc_of(reply) matches Some(doc) && document::flag_field(doc, "enabled"@)
}

/// The room key of a group document, or else the fallback.
pub open spec fn room_key_or_fallback(group: Option<DocView>) -> Seq<char> {
    match room_key_in(group) {
        Some(key) => key,
        None => FALLBACK_ROOM_KEY@,
    }
}

/// How the switching goes on after a reply.
pub open spec fn toggle_next(waiting: NetToggleView, reply: ReplyView) -> NetToggleStepView {
    match waiting {
        NetToggleView::ReadPrefs(request) => if request.enabled != enabled_in(reply) {
            StepView::Do(
                NetToggleView::WritePrefs(request),
                SyncActionView::Store(
                    StoreActionView::Put {
                        collection: APP_STATE_COLLECTION@,
                        id: NET_PREFS_DOC@,
                        doc: net_prefs(request.enabled),
                    },
                ),
            )
        } else {
            toggle_settled(request)
        },
        NetToggleView::WritePrefs(request) => toggle_settled(request),
        NetToggleView::ReadGroup(request) => toggle_starting(
            request,
            room_key_or_fallback(host::doc_of(reply)),
        ),
        NetToggleView::Stop => StepView::Do(
            NetToggleView::AnnounceOff,
            SyncActionView::Emit(EVENT_SYNC_OFF@),
        ),
        NetToggleView::AnnounceOff => StepView::Done(OFF@),
        NetToggleView::Make => StepView::Do(NetToggleView::Start, SyncActionView::Start),
        NetToggleView::Start => match reply {
            ReplyView::Failed(error) => StepView::Fail(error),
            _ => StepView::Do(NetToggleView::AnnounceOn, SyncActionView::Emit(EVENT_SYNC_ON@)),
        },
        NetToggleView::AnnounceOn => StepView::Done(ON@),
    }
}

fn starting(request: NetRequest, room_key: String) -> (step: NetToggleStep)
    ensures
        step.deep_view() == toggle_starting(request.deep_view(), room_key@),
{
    let excluded = match request.excluded {
        Some(collections) => collections,
        None => {
            let mut collections: Vec<String> = Vec::new();
            collections.push(APP_STATE_COLLECTION.to_string());
            assert(collections.deep_view() =~= seq![APP_STATE_COLLECTION@]);
            collections
        },
    };
    Step::Do(
        NetToggle::Make,
        SyncAction::Make(
            NetStart { self_id: request.self_id, room_key, excluded, port: request.port },
        ),
    )
}

fn settled(request: NetRequest) -> (step: NetToggleStep)
    ensures
        step.deep_view() == toggle_settled(request.deep_view()),
{
    if !request.enabled {
        if request.running {
            Step::Do(NetToggle::Stop, SyncAction::Stop)
        } else {
            Step::Do(NetToggle::AnnounceOff, SyncAction::Emit(EVENT_SYNC_OFF.to_string()))
        }
    } else if request.running {
        Step::Done(ON.to_string())
    } else {
        if let Some(key) = &request.room_key {
            if !key.as_str().is_empty() {
                let room_key = key.clone();
                return starting(request, room_key);
            }
        }
        Step::Do(
            NetToggle::ReadGroup(request),
            SyncAction::Store(host::get(APP_STATE_COLLECTION, NET_GROUP_DOC)),
        )
    }
}

fn begin(request: NetRequest) -> (step: NetToggleStep)
    ensures
        step.deep_view() == toggle_start(request.deep_view()),
{
    Step::Do(
        NetToggle::ReadPrefs(request),
        SyncAction::Store(host::get(APP_STATE_COLLECTION, NET_PREFS_DOC)),
    )
}

/// Switches mesh sync on or off. `running` tells whether a syncer runs.
pub fn toggle_net_sync(
    enabled: bool,
    port: u16,
    self_id: String,
    room_key: Option<String>,
    excluded: Option<Vec<String>>,
    running: bool,
) -> (step: NetToggleStep)
    ensures
        step.deep_view() == toggle_start(
            NetRequestView {
                enabled,
                port,
                self_id: self_id@,
                room_key: room_key.deep_view(),
                excluded: excluded.deep_view(),
                running,
            },
        ),
{
    begin(NetRequest { enabled, port, self_id, room_key, excluded, running })
}

impl NetToggle {
    /// Goes on after a reply.
    pub fn next(self, reply: Reply) -> (step: NetToggleStep)
        ensures
            step.deep_view() == toggle_next(self.deep_view(), reply.deep_view()),
    {
        match self {
            NetToggle::ReadPrefs(request) => {
                let enabled = match reply.into_doc() {
                    Some(doc) => doc.flag("enabled"),
                    None => false,
                };
                if request.enabled != enabled {
                    let mut prefs = Doc::new();
                    prefs.insert("enabled", Value::Bool(request.enabled));
                    let action = host::put(APP_STATE_COLLECTION, NET_PREFS_DOC, prefs);
                    Step::Do(NetToggle::WritePrefs(request), SyncAction::Store(action))
                } else {
                    settled(request)
                }
            },
            NetToggle::WritePrefs(request) => settled(request),
            NetToggle::ReadGroup(request) => {
                let room_key = match read_room_key(&reply.into_doc()) {
                    Some(key) => key,
                    None => FALLBACK_ROOM_KEY.to_string(),
                };
                starting(request, room_key)
            },
            NetToggle::Stop => Step::Do(
                NetToggle::AnnounceOff,
                SyncAction::Emit(EVENT_SYNC_OFF.to_string()),
            ),
            NetToggle::AnnounceOff => Step::Done(OFF.to_string()),
            NetToggle::Make => Step::Do(NetToggle::Start, SyncAction::Start),
            NetToggle::Start => match reply {
                Reply::Failed(error) => Step::Fail(error),
                _ => Step::Do(NetToggle::AnnounceOn, SyncAction::Emit(EVENT_SYNC_ON.to_string())),
            },
            NetToggle::AnnounceOn => Step::Done(ON.to_string()),
        }
    }
}

/// The command that switches mesh sync on when the application starts, waiting for a reply.
pub enum NetBoot {
    /// Waits for the document that remembers whether sync is on.
    ReadPrefs(NetRequest),
    /// Switches mesh sync on.
    Toggle(NetToggle),
}

/// The content of a [`NetBoot`].
pub enum NetBootView {
    ReadPrefs(NetRequestView),
    Toggle(NetToggleView),
}

impl DeepView for NetBoot {
    type V = NetBootView;

    open spec fn deep_view(&self) -> NetBootView {
        match self {
            NetBoot::ReadPrefs(request) => NetBootView::ReadPrefs(request.deep_view()),
            NetBoot::Toggle(toggle) => NetBootView::Toggle(toggle.deep_view()),
        }
    }
}

/// Where the switching on at the start stands, in content.
pub type NetBootStepView = StepView<NetBootView, SyncActionView<NetStartView>, ()>;

/// Where the switching on at the start stands.
pub type NetBootStep = Step<NetBoot, SyncAction<NetStart>, ()>;

/// The request that is made at the application's start.
pub open spec fn boot_request(
    port: u16,
    self_id: Seq<char>,
    excluded: Option<Seq<Seq<char>>>,
    running: bool,
) -> NetRequestView {
    NetRequestView { enabled: true, port, self_id, room_key: None, excluded, running }
}

/// The switching on at the start begins with a look at what is remembered.
pub open spec fn boot_start(request: NetRequestView) -> NetBootStepView {
    StepView::Do(
        NetBootView::ReadPrefs(request),
        SyncActionView::Store(
            StoreActionView::Get { collection: APP_STATE_COLLECTION@, id: NET_PREFS_DOC@ },
        ),
    )
}

/// A step of the switching, as a step of the start; what the switching answers is dropped.
pub open spec fn boot_toggling(step: NetToggleStepView) -> NetBootStepView {
    match step {
        StepView::Do(toggle, action) => StepView::Do(NetBootView::Toggle(toggle), action),
        _ => StepView::Done(()),
    }
}

/// How the switching on at the start goes on after a reply.
pub open spec fn boot_next(waiting: NetBootView, reply: ReplyView) -> NetBootStepView {
    match waiting {
        NetBootView::ReadPrefs(request) => if enabled_in(reply) {
            boot_toggling(toggle_start(request))
        } else {
            StepView::Done(())
        },
        NetBootView::Toggle(toggle) => boot_toggling(toggle_next(toggle, reply)),
    }
}

fn toggling(step: NetToggleStep) -> (r: NetBootStep)
    ensures
        r.deep_view() == boot_toggling(step.deep_view()),
{
    match step {
        Step::Do(toggle, action) => Step::Do(NetBoot::Toggle(toggle), action),
        _ => Step::Done(()),
    }
}

/// Switches mesh sync on again when the application starts, if it was on before.
pub fn bootstrap_sync(
    port: u16,
    self_id: String,
    excluded: Option<Vec<String>>,
    running: bool,
) -> (step: NetBootStep)
    ensures
        step.deep_view() == boot_start(
            boot_request(port, self_id@, excluded.deep_view(), running),
        ),
        step.deep_view() == boot_start(
            NetRequestView {
                enabled: true,
                port,
                self_id: self_id@,
                room_key: None,
                excluded: excluded.deep_view(),
                running,
            },
        ),
{
    let request = NetRequest { enabled: true, port, self_id, room_key: None, excluded, running };
    Step::Do(
        NetBoot::ReadPrefs(request),
        SyncAction::Store(host::get(APP_STATE_COLLECTION, NET_PREFS_DOC)),
    )
}

impl NetBoot {
    /// Goes on after a reply.
    pub fn next(self, reply: Reply) -> (step: NetBootStep)
        ensures
            step.deep_view() == boot_next(self.deep_view(), reply.deep_view()),
    {
        match self {
            NetBoot::ReadPrefs(request) => {
                let enabled = match reply.into_doc() {
                    Some(doc) => doc.flag("enabled"),
                    None => false,
                };
                if enabled {
                    toggling(begin(request))
                } else {
                    Step::Done(())
                }
            },
            NetBoot::Toggle(toggle) => toggling(toggle.next(reply)),
        }
    }
}

/// Whether the store remembers sync as on.
pub open spec fn is_enabled(docs: Docs) -> bool {
    host::doc_at(docs, APP_STATE_COLLECTION@, NET_PREFS_DOC@) matches Some(doc)
        && document::flag_field(doc, "enabled"@)
}

/// The store after a request: the switch is written where it changes.
pub open spec fn docs_after(docs: Docs, enabled: bool) -> Docs {
    if enabled != is_enabled(docs) {
        docs.insert((APP_STATE_COLLECTION@, NET_PREFS_DOC@), net_prefs(enabled))
    } else {
        docs
    }
}

/// The room that a request starts in: its own, if its key is not empty, or else that of the
/// group document, or else the fallback.
pub open spec fn effective_room(docs: Docs, room_key: Option<Seq<char>>) -> Seq<char> {
    match text::non_empty(room_key) {
        Some(key) => key,
        None => room_key_or_fallback(
            host::doc_at(docs, APP_STATE_COLLECTION@, NET_GROUP_DOC@),
        ),
    }
}

/// The host after a request, and the answer.
pub open spec fn toggle_outcome(
    host: HostView<NetStartView>,
    request: NetRequestView,
    start_error: Option<Seq<char>>,
) -> (HostView<NetStartView>, NetToggleStepView) {
    let docs = docs_after(host.docs, request.enabled);
    if !request.enabled {
        (
            HostView { docs, syncer: None, events: host.events.push(EVENT_SYNC_OFF@), ..host },
            StepView::Done(OFF@),
        )
    } else if host.syncer is Some {
        (HostView { docs, ..host }, StepView::Done(ON@))
    } else {
        match start_error {
            Some(error) => (HostView { docs, made: None, ..host }, StepView::Fail(error)),
            None => (
                HostView {
                    docs,
                    made: None,
                    syncer: Some(
                        SyncerView {
                            setup: start_in_room(
                                request,
                                effective_room(host.docs, request.room_key),
                            ),
                            api_key: None,
                        },
                    ),
                    events: host.events.push(EVENT_SYNC_ON@),
                },
                StepView::Done(ON@),
            ),
        }
    }
}

proof fn lemma_places()
    ensures
        (APP_STATE_COLLECTION@, NET_PREFS_DOC@) != (APP_STATE_COLLECTION@, NET_GROUP_DOC@),
{
    reveal_strlit("sync_prefs");
    reveal_strlit("sync_group");
    assert(NET_PREFS_DOC@[5] != NET_GROUP_DOC@[5]);
}

/// Switching mesh sync writes the switch where it changes, and then stops the syncer that
/// runs, or keeps it, or starts one where none runs. A start that fails is answered with its
/// error; the switch stays written.
pub proof fn law_toggle_net_sync(
    host: HostView<NetStartView>,
    request: NetRequestView,
    start_error: Option<Seq<char>>,
)
    requires
        request.running == (host.syncer is Some),
    ensures
        host::run_sync(
            |w: NetToggleView, r: ReplyView| toggle_next(w, r),
            toggle_start(request),
            host,
            start_error,
            6,
        ) == toggle_outcome(host, request, start_error),
        is_enabled(docs_after(host.docs, request.enabled)) == request.enabled,
{
    lemma_places();
    reveal_with_fuel(host::run_sync, 7);
}

/// A syncer is always started in a room with a key: that of the request, that of the group
/// document, or the fallback, in this order.
pub proof fn law_room_key(docs: Docs, room_key: Option<Seq<char>>)
    ensures
        effective_room(docs, room_key).len() > 0,
        room_key matches Some(key) ==> key.len() > 0 ==> effective_room(docs, room_key) == key,
{
    reveal_strlit("default");
}

/// Once sync was switched on, the same request again changes nothing: no second syncer is
/// started and no event is told.
pub proof fn law_switching_on_twice(
    host: HostView<NetStartView>,
    request: NetRequestView,
    later_error: Option<Seq<char>>,
)
    requires
        request.enabled,
    ensures
        ({
            let (on, answer) = toggle_outcome(host, request, None);
            &&& answer == NetToggleStepView::Done(ON@)
            &&& on.syncer is Some
            &&& toggle_outcome(on, request, later_error) == (on, answer)
        }),
{
}

/// At the application's start mesh sync is switched on again exactly where it was on before,
/// in the room of the group document; whatever comes of it, the start succeeds.
pub proof fn law_bootstrap_sync(
    host: HostView<NetStartView>,
    port: u16,
    self_id: Seq<char>,
    excluded: Option<Seq<Seq<char>>>,
    start_error: Option<Seq<char>>,
)
    ensures
        ({
            let request = boot_request(port, self_id, excluded, host.syncer is Some);
            host::run_sync(
                |w: NetBootView, r: ReplyView| boot_next(w, r),
                boot_start(request),
                host,
                start_error,
                6,
            ) == (
                if is_enabled(host.docs) {
                    toggle_outcome(host, request, start_error).0
                } else {
                    host
                },
                NetBootStepView::Done(()),
            )
        }),
{
    lemma_places();
    reveal_with_fuel(host::run_sync, 7);
}

/// The most actions that the switching takes yet, the one that it waits for included.
pub open spec fn toggle_actions_left(waiting: NetToggleView) -> nat {
    match waiting {
        NetToggleView::ReadPrefs(request) => 6,
        NetToggleView::WritePrefs(request) => 5,
        NetToggleView::ReadGroup(request) => 4,
        NetToggleView::Make => 3,
        NetToggleView::Stop => 2,
        NetToggleView::Start => 2,
        NetToggleView::AnnounceOff => 1,
        NetToggleView::AnnounceOn => 1,
    }
}

/// The most actions that the start takes yet, the one that it waits for included.
pub open spec fn boot_actions_left(waiting: NetBootView) -> nat {
    match waiting {
        NetBootView::ReadPrefs(request) => 7,
        NetBootView::Toggle(toggle) => toggle_actions_left(toggle),
    }
}

/// Whatever the host replies, switching mesh sync comes to an end, and fails only where the
/// syncer does not start; the application's start comes to an end and never fails.
pub proof fn law_switching_ends(waiting: NetToggleView, booting: NetBootView, reply: ReplyView)
    ensures
        match toggle_next(waiting, reply) {
            StepView::Do(next, action) => toggle_actions_left(next) < toggle_actions_left(waiting),
            StepView::Done(answer) => true,
            StepView::Fail(message) => waiting is Start && reply is Failed,
        },
        match boot_next(booting, reply) {
            StepView::Do(next, action) => boot_actions_left(next) < boot_actions_left(booting),
            StepView::Done(answer) => true,
            StepView::Fail(message) => false,
        },
{
}

/// The content of what a syncer is made from is what its own fields hold.
pub proof fn law_starts_are_seen_whole(start: NetStart)
    ensures
        start.deep_view().self_id == start.self_id@,
        start.deep_view().room_key == start.room_key@,
        start.deep_view().excluded == start.excluded.deep_view(),
        start.deep_view().port == start.port,
{
}

} // verus!
