//! What a request to switch cloud sync comes to, in terms of the request and of the host.
use super::config;
use super::config::CloudSyncConfigView;
use super::credentials;
use super::credentials::{LoadKeyStepView, LoadKeyView};
use super::switch;
use super::switch::{
    CloudBootStepView, CloudBootView, CloudRequestView, CloudStartView, CloudToggleStepView,
    CloudToggleView,
};
use super::switch_laws;
use crate::document::ValueView;
use crate::host;
use crate::host::{Docs, HostView, ReplyView, StepView, StoreActionView, SyncActionView};
use vstd::prelude::*;

verus! {

/// Runs the switching on a host.
pub open spec fn run_toggle(
    host: HostView<CloudStartView>,
    wanted: CloudSyncConfigView,
    self_id: Seq<char>,
    start_error: Option<Seq<char>>,
) -> (HostView<CloudStartView>, CloudToggleStepView) {
    host::run_sync(
        |w: CloudToggleView, r: ReplyView| switch::toggle_next(w, r),
        switch::toggle_start(
            CloudRequestView { config: wanted, self_id, running: host.syncer is Some },
        ),
        host,
        start_error,
        9,
    )
}

/// Runs the application's start on a host.
pub open spec fn run_boot(
    host: HostView<CloudStartView>,
    self_id: Seq<char>,
    start_error: Option<Seq<char>>,
) -> (HostView<CloudStartView>, CloudBootStepView) {
    host::run_sync(
        |w: CloudBootView, r: ReplyView| switch::boot_next(w, r),
        switch::boot_start(self_id, host.syncer is Some),
        host,
        start_error,
        13,
    )
}

/// Runs the loading of the key on a store.
pub open spec fn run_load(docs: Docs) -> (Docs, LoadKeyStepView) {
    host::run(
        |w: LoadKeyView, r: ReplyView| credentials::load_key_next(w, r),
        credentials::load_key_start(),
        docs,
        3,
    )
}

/// Switched on where no syncer runs, a server starts at the bind address that was given, and a
/// client joins the room that was given, with its key, at the server that was given; only what
/// was not given is the default. The device's id and the token are those that were given. The
/// syncer has the key that was given when it starts, or else the one that is loaded.
pub proof fn law_syncer_starts_as_requested(
    host: HostView<CloudStartView>,
    wanted: CloudSyncConfigView,
    self_id: Seq<char>,
)
    requires
        wanted.enabled,
        host.syncer is None,
    ensures
        ({
            let (after, answer) = run_toggle(host, wanted, self_id, None);
            &&& answer == CloudToggleStepView::Done("ON"@)
            &&& after.made is None
            &&& after.events == host.events.push("cloud_sync_on"@)
            &&& after.syncer is Some
            &&& wanted.mode is Server ==> after.syncer->0.setup == (CloudStartView::Server {
                self_id,
                auth_token: wanted.auth_token,
                address: match wanted.bind_addr {
                    Some(address) => address,
                    None => "0.0.0.0:8056"@,
                },
            })
            &&& wanted.mode is Client ==> after.syncer->0.setup == (CloudStartView::Client {
                self_id,
                room_name: match wanted.room_name {
                    Some(room_name) => room_name,
                    None => "default"@,
                },
                room_key: match wanted.room_key {
                    Some(room_key) => room_key,
                    None => Seq::empty(),
                },
                auth_token: wanted.auth_token,
                address: match wanted.server_url {
                    Some(address) => address,
                    None => "ws://127.0.0.1:8056"@,
                },
            })
            &&& if wanted.api_key is Some && wanted.api_key->0.len() > 0 {
                after.syncer->0.api_key == wanted.api_key
            } else {
                run_load(host.docs).1 == LoadKeyStepView::Done(after.syncer->0.api_key)
            }
        }),
{
    switch_laws::law_toggle_cloud_sync(host, wanted, self_id, None);
    credentials::law_load_api_key(host.docs);
}

/// Switched off, no syncer runs any more and the windows are told, whether or not one ran.
pub proof fn law_switched_off_nothing_runs(
    host: HostView<CloudStartView>,
    wanted: CloudSyncConfigView,
    self_id: Seq<char>,
    start_error: Option<Seq<char>>,
)
    requires
        !wanted.enabled,
    ensures
        ({
            let (after, answer) = run_toggle(host, wanted, self_id, start_error);
            &&& answer == CloudToggleStepView::Done("OFF"@)
            &&& after.syncer is None
            &&& after.made == host.made
            &&& after.events == host.events.push("cloud_sync_off"@)
        }),
{
    switch_laws::law_toggle_cloud_sync(host, wanted, self_id, start_error);
}

/// Switched on where a syncer runs, that one stays as it is and nothing is told.
pub proof fn law_running_syncer_is_kept(
    host: HostView<CloudStartView>,
    wanted: CloudSyncConfigView,
    self_id: Seq<char>,
    start_error: Option<Seq<char>>,
)
    requires
        wanted.enabled,
        host.syncer is Some,
    ensures
        ({
            let (after, answer) = run_toggle(host, wanted, self_id, start_error);
            &&& answer == CloudToggleStepView::Done("ON"@)
            &&& after.syncer == host.syncer
            &&& after.made == host.made
            &&& after.events == host.events
        }),
{
    switch_laws::law_toggle_cloud_sync(host, wanted, self_id, start_error);
}

/// Where the syncer does not start, none runs, nothing is told, and the answer is the error
/// behind what was to be started.
pub proof fn law_failed_start_is_answered(
    host: HostView<CloudStartView>,
    wanted: CloudSyncConfigView,
    self_id: Seq<char>,
    error: Seq<char>,
)
    requires
        wanted.enabled,
        host.syncer is None,
    ensures
        ({
            let (after, answer) = run_toggle(host, wanted, self_id, Some(error));
            &&& wanted.mode is Server ==> answer == CloudToggleStepView::Fail(
                "cloud sync server start failed: "@ + error,
            )
            &&& wanted.mode is Client ==> answer == CloudToggleStepView::Fail(
                "cloud sync client start failed: "@ + error,
            )
            &&& after.syncer is None
            &&& after.made is None
            &&& after.events == host.events
        }),
{
    switch_laws::law_toggle_cloud_sync(host, wanted, self_id, Some(error));
}

/// The store after a request, whatever comes of the start. A key that was given becomes the only
/// field of the credentials; without one the store is as after loading the key. The settings
/// are written exactly where the request switches sync over; otherwise they stay, but without a
/// key where one was given. No other document changes.
pub proof fn law_documents_after_switching(
    host: HostView<CloudStartView>,
    wanted: CloudSyncConfigView,
    self_id: Seq<char>,
    start_error: Option<Seq<char>>,
)
    ensures
        ({
            let prefs = ("app_state"@, "cloud_sync_prefs"@);
            let creds = ("__cloud_client"@, "creds"@);
            let docs = host.docs;
            let was_enabled = docs.contains_key(prefs) && docs[prefs].contains_key("enabled"@)
                && docs[prefs]["enabled"@] == ValueView::Bool(true);
            let given = wanted.api_key is Some && wanted.api_key->0.len() > 0;
            let keyed = if given {
                docs.insert(creds, map!["api_key"@ => ValueView::Text(wanted.api_key->0)])
            } else {
                run_load(docs).0
            };
            run_toggle(host, wanted, self_id, start_error).0.docs == if wanted.enabled
                != was_enabled {
                host::perform(keyed, config::save_config_action(wanted)).0
            } else if given && docs.contains_key(prefs) {
                keyed.insert(prefs, docs[prefs].remove("api_key"@))
            } else {
                keyed
            }
        }),
{
    let prefs = ("app_state"@, "cloud_sync_prefs"@);
    let creds = ("__cloud_client"@, "creds"@);
    let docs = host.docs;
    reveal_strlit("app_state");
    reveal_strlit("__cloud_client");
    assert(prefs.0.len() != creds.0.len());
    switch_laws::law_toggle_cloud_sync(host, wanted, self_id, start_error);
    credentials::law_load_api_key(docs);
    if wanted.api_key is Some && wanted.api_key->0.len() > 0 && docs.contains_key(prefs)
        && !docs[prefs].contains_key("api_key"@) {
        let keyed = docs.insert(creds, map!["api_key"@ => ValueView::Text(wanted.api_key->0)]);
        assert(docs[prefs].remove("api_key"@) =~= docs[prefs]);
        assert(keyed.insert(prefs, docs[prefs]) =~= keyed);
    }
}

/// At the application's start the key is loaded and sync is switched on with the settings that
/// the settings document holds and that key, exactly where that document has its switch on;
/// elsewhere nothing is done. Either way the start succeeds.
pub proof fn law_start_is_a_switching_on(
    host: HostView<CloudStartView>,
    self_id: Seq<char>,
    start_error: Option<Seq<char>>,
)
    ensures
        ({
            let prefs = ("app_state"@, "cloud_sync_prefs"@);
            let docs = host.docs;
            let (loaded, key) = run_load(docs);
            let (after, answer) = run_boot(host, self_id, start_error);
            &&& answer == CloudBootStepView::Done(())
            &&& if docs.contains_key(prefs) && docs[prefs].contains_key("enabled"@)
                && docs[prefs]["enabled"@] == ValueView::Bool(true) {
                &&& key is Done
                &&& after == run_toggle(
                    HostView { docs: loaded, ..host },
                    config::config_of(docs[prefs], key->Done_0),
                    self_id,
                    start_error,
                ).0
            } else {
                after == host
            }
        }),
{
    let prefs = ("app_state"@, "cloud_sync_prefs"@);
    let docs = host.docs;
    let (loaded, key) = run_load(docs);
    credentials::law_load_api_key(docs);
    switch_laws::law_bootstrap_cloud_sync(host, self_id, start_error);
    switch_laws::law_toggle_cloud_sync(
        HostView { docs: loaded, ..host },
        config::config_of(docs[prefs], key->Done_0),
        self_id,
        start_error,
    );
}

/// A read that fails is to the switching as if the document were missing, and any other action
/// that fails as if it were done, but for the start of the syncer.
pub proof fn law_failures_do_not_stop_the_switching(
    waiting: CloudToggleView,
    booting: CloudBootView,
    reply: ReplyView,
    error: Seq<char>,
)
    ensures
        !(waiting is Start) ==> switch::toggle_next(waiting, ReplyView::Failed(error))
            == switch::toggle_next(waiting, ReplyView::Missing) && switch::toggle_next(
            waiting,
            ReplyView::Failed(error),
        ) == switch::toggle_next(waiting, ReplyView::Done),
        waiting is Start && !(reply is Failed) ==> switch::toggle_next(waiting, reply)
            == switch::toggle_next(waiting, ReplyView::Done),
        switch::boot_next(CloudBootView::Toggle(waiting), reply) == match switch::toggle_next(
            waiting,
            reply,
        ) {
            StepView::Do(next, action) => StepView::Do(CloudBootView::Toggle(next), action),
            _ => StepView::Done(()),
        },
        !(booting is Toggle) ==> switch::boot_next(booting, ReplyView::Failed(error))
            == switch::boot_next(booting, ReplyView::Missing) && switch::boot_next(
            booting,
            ReplyView::Failed(error),
        ) == switch::boot_next(booting, ReplyView::Done),
{
}

/// The windows are told last: once they are, nothing more is done, whatever comes of it.
pub proof fn law_telling_comes_last(waiting: CloudToggleView, reply: ReplyView, later: ReplyView)
    ensures
        switch::toggle_next(waiting, reply) matches StepView::Do(next, SyncActionView::Emit(event))
            ==> switch::toggle_next(next, later) is Done,
{
}

/// Each read counts by itself, whatever an earlier one gave: once the key is settled the settings
/// are read, and what to write goes by the document that is read then. The new settings are
/// written where it has the switch otherwise than the request; the document without its key
/// where it has the switch alike, the key came with the request and the document has a field for
/// one; and elsewhere the switching goes on as after such a write.
pub proof fn law_settings_count_as_read_last(
    request: CloudRequestView,
    fresh: bool,
    load: LoadKeyView,
    reply: ReplyView,
    later: ReplyView,
)
    ensures
        switch::toggle_next(CloudToggleView::SaveKey(request), reply) == CloudToggleStepView::Do(
            CloudToggleView::ReadPrefs { request, fresh: true },
            SyncActionView::Store(
                StoreActionView::Get { collection: "app_state"@, id: "cloud_sync_prefs"@ },
            ),
        ),
        switch::toggle_next(CloudToggleView::LoadKey(request, load), reply)
            == match credentials::load_key_next(load, reply) {
            StepView::Do(next, action) => CloudToggleStepView::Do(
                CloudToggleView::LoadKey(request, next),
                SyncActionView::Store(action),
            ),
            StepView::Done(api_key) => CloudToggleStepView::Do(
                CloudToggleView::ReadPrefs {
                    request: CloudRequestView {
                        config: CloudSyncConfigView { api_key, ..request.config },
                        ..request
                    },
                    fresh: false,
                },
                SyncActionView::Store(
                    StoreActionView::Get { collection: "app_state"@, id: "cloud_sync_prefs"@ },
                ),
            ),
            StepView::Fail(message) => CloudToggleStepView::Fail(message),
        },
        ({
            let step = switch::toggle_next(CloudToggleView::ReadPrefs { request, fresh }, reply);
            let enabled = reply is Found && reply->Found_0.contains_key("enabled"@)
                && reply->Found_0["enabled"@] == ValueView::Bool(true);
            if request.config.enabled != enabled {
                step == CloudToggleStepView::Do(
                    CloudToggleView::WritePrefs(request),
                    SyncActionView::Store(config::save_config_action(request.config)),
                )
            } else if fresh && reply is Found && reply->Found_0.contains_key("api_key"@) {
                step == CloudToggleStepView::Do(
                    CloudToggleView::WritePrefs(request),
                    SyncActionView::Store(
                        StoreActionView::Put {
                            collection: "app_state"@,
                            id: "cloud_sync_prefs"@,
                            doc: reply->Found_0.remove("api_key"@),
                        },
                    ),
                )
            } else {
                step == switch::toggle_next(CloudToggleView::WritePrefs(request), later)
            }
        }),
{
}

/// The settings that are shown, and those that sync is switched on with at the start, are those
/// of the first read, joined by the key that is loaded after it, whatever is read then.
pub proof fn law_settings_are_joined_by_the_key(
    shown: CloudSyncConfigView,
    request: CloudRequestView,
    load: LoadKeyView,
    reply: ReplyView,
)
    ensures
        credentials::load_key_next(load, reply) matches StepView::Done(api_key) ==> {
            &&& config::get_config_next(config::GetConfigView::LoadKey(shown, load), reply)
                == config::GetConfigStepView::Done(Some(CloudSyncConfigView { api_key, ..shown }))
            &&& switch::boot_next(CloudBootView::LoadKey(request, load), reply)
                == match switch::toggle_start(
                CloudRequestView {
                    config: CloudSyncConfigView { api_key, ..request.config },
                    ..request
                },
            ) {
                StepView::Do(next, action) => StepView::Do(CloudBootView::Toggle(next), action),
                _ => StepView::Done(()),
            }
        },
        credentials::load_key_next(load, reply) matches StepView::Do(next, action) ==> {
            &&& config::get_config_next(config::GetConfigView::LoadKey(shown, load), reply)
                == config::GetConfigStepView::Do(
                config::GetConfigView::LoadKey(shown, next),
                action,
            )
            &&& switch::boot_next(CloudBootView::LoadKey(request, load), reply)
                == CloudBootStepView::Do(
                CloudBootView::LoadKey(request, next),
                SyncActionView::Store(action),
            )
        },
{
}

} // verus!
