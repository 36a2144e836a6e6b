//! What holds of switching cloud sync, on a host whose store does not fail and, where it
//! says so, whatever the host replies.
use super::config;
use super::config::{CloudSyncConfigView, GetConfigStepView, GetConfigView};
use super::credentials;
use super::credentials::{LoadKeyStepView, LoadKeyView};
use super::switch;
use super::switch::{
    CloudBootStepView, CloudBootView, CloudRequestView, CloudStartView, CloudToggleStepView,
    CloudToggleView, OFF, ON,
};
use super::{
    APP_STATE_COLLECTION, CLOUD_CREDS_DOC, CLOUD_KEYS_COLLECTION, CLOUD_PREFS_DOC,
    EVENT_CLOUD_SYNC_OFF, EVENT_CLOUD_SYNC_ON,
};
use crate::document;
use crate::host;
use crate::host::{Docs, HostView, ReplyView, StepView, SyncActionView, SyncerView};
use crate::text;
use vstd::prelude::*;

verus! {

/// The key that a request comes to use: its own, if that is not empty, or else the one that
/// the store holds.
pub open spec fn effective_key(docs: Docs, given: Option<Seq<char>>) -> Option<Seq<char>> {
    match text::non_empty(given) {
        Some(key) => Some(key),
        None => credentials::key_in_store(docs),
    }
}

/// The store once the key is settled.
pub open spec fn docs_with_key(docs: Docs, given: Option<Seq<char>>) -> Docs {
    match text::non_empty(given) {
        Some(key) => docs.insert(
            (CLOUD_KEYS_COLLECTION@, CLOUD_CREDS_DOC@),
            credentials::creds_doc(Some(key)),
        ),
        None => credentials::migrated(docs),
    }
}

/// Whether the saved settings have sync switched on.
pub open spec fn is_enabled(docs: Docs) -> bool {
    host::doc_at(docs, APP_STATE_COLLECTION@, CLOUD_PREFS_DOC@) matches Some(doc)
        && document::flag_field(doc, "enabled"@)
}

/// The settings that a request comes to use.
pub open spec fn effective_config(docs: Docs, wanted: CloudSyncConfigView) -> CloudSyncConfigView {
    CloudSyncConfigView { api_key: effective_key(docs, wanted.api_key), ..wanted }
}

/// The store with every key taken out of the settings.
pub open spec fn without_key(docs: Docs) -> Docs {
    match host::doc_at(docs, APP_STATE_COLLECTION@, CLOUD_PREFS_DOC@) {
        Some(doc) if doc.contains_key("api_key"@) => docs.insert(
            (APP_STATE_COLLECTION@, CLOUD_PREFS_DOC@),
            doc.remove("api_key"@),
        ),
        _ => docs,
    }
}

/// The store after a request: the key settled, and the settings saved where they switch sync
/// over; where they stay, a key that came with the request leaves no other in them.
pub open spec fn docs_after(docs: Docs, wanted: CloudSyncConfigView) -> Docs {
    let keyed = docs_with_key(docs, wanted.api_key);
    if wanted.enabled != is_enabled(docs) {
        keyed.insert(
            (APP_STATE_COLLECTION@, CLOUD_PREFS_DOC@),
            config::prefs_doc(effective_config(docs, wanted)),
        )
    } else if text::non_empty(wanted.api_key) is Some {
        without_key(keyed)
    } else {
        keyed
    }
}

/// The syncer for the given settings: it had the key of the settings when it started.
pub open spec fn syncer_for(
    config: CloudSyncConfigView,
    self_id: Seq<char>,
) -> SyncerView<CloudStartView> {
    SyncerView { setup: switch::start_for(config, self_id), api_key: config.api_key }
}

/// The host after a request, and the answer.
pub open spec fn toggle_outcome(
    host: HostView<CloudStartView>,
    wanted: CloudSyncConfigView,
    self_id: Seq<char>,
    start_error: Option<Seq<char>>,
) -> (HostView<CloudStartView>, CloudToggleStepView) {
    let config = effective_config(host.docs, wanted);
    let docs = docs_after(host.docs, wanted);
    if !wanted.enabled {
        (
            HostView {
                docs,
                syncer: None,
                events: host.events.push(EVENT_CLOUD_SYNC_OFF@),
                ..host
            },
            StepView::Done(OFF@),
        )
    } else if host.syncer is Some {
        (HostView { docs, ..host }, StepView::Done(ON@))
    } else {
        match start_error {
            Some(error) => (
                HostView { docs, made: None, ..host },
                StepView::Fail(switch::start_failure(wanted.mode, error)),
            ),
            None => (
                HostView {
                    docs,
                    made: None,
                    syncer: Some(syncer_for(config, self_id)),
                    events: host.events.push(EVENT_CLOUD_SYNC_ON@),
                },
                StepView::Done(ON@),
            ),
        }
    }
}

proof fn lemma_places()
    ensures
        (APP_STATE_COLLECTION@, CLOUD_PREFS_DOC@) != (CLOUD_KEYS_COLLECTION@, CLOUD_CREDS_DOC@),
        APP_STATE_COLLECTION@ != CLOUD_KEYS_COLLECTION@,
        "enabled"@ != "api_key"@,
{
    reveal_strlit("app_state");
    reveal_strlit("__cloud_client");
    reveal_strlit("enabled");
    reveal_strlit("api_key");
    assert(APP_STATE_COLLECTION@.len() != CLOUD_KEYS_COLLECTION@.len());
    assert("enabled"@[0] != "api_key"@[0]);
}

/// Settling the key does not touch the switch in the settings.
proof fn lemma_key_leaves_switch(docs: Docs, given: Option<Seq<char>>)
    ensures
        is_enabled(docs_with_key(docs, given)) == is_enabled(docs),
{
    lemma_places();
}

/// Switching cloud sync settles the key, saves the settings where they switch sync over, and
/// then stops the syncer that runs, or keeps it, or starts one where none runs. A start that
/// fails is answered with its error; the settings stay saved.
pub proof fn law_toggle_cloud_sync(
    host: HostView<CloudStartView>,
    wanted: CloudSyncConfigView,
    self_id: Seq<char>,
    start_error: Option<Seq<char>>,
)
    ensures
        host::run_sync(
            |w: CloudToggleView, r: ReplyView| switch::toggle_next(w, r),
            switch::toggle_start(
                CloudRequestView { config: wanted, self_id, running: host.syncer is Some },
            ),
            host,
            start_error,
            9,
        ) == toggle_outcome(host, wanted, self_id, start_error),
{
    lemma_places();
    lemma_key_leaves_switch(host.docs, wanted.api_key);
    reveal_with_fuel(host::run_sync, 10);
}

/// Whatever the host replies, a syncer is started only right after it was handed its key, and it
/// is handed its key, the one of the request, right after it was made.
pub proof fn law_key_is_set_before_the_start(
    request: CloudRequestView,
    waiting: CloudToggleView,
    reply: ReplyView,
)
    ensures
        switch::toggle_start(request) matches StepView::Do(first, SyncActionView::Store(action)) && !(
        first is Make) && !(first is SetKey),
        switch::toggle_next(waiting, reply) matches StepView::Do(next, action) ==> {
            &&& action is Start ==> waiting is SetKey
            &&& next is SetKey ==> waiting is Make && action
                == SyncActionView::<CloudStartView>::SetKey(waiting->api_key)
            &&& next is Make ==> action is Make
        },
        switch::toggle_settled(request) matches StepView::Do(
            CloudToggleView::Make { mode, api_key },
            action,
        ) ==> api_key == request.config.api_key,
{
}

/// After every request the saved settings have sync switched as the request wants it.
pub proof fn law_switch_is_remembered(docs: Docs, wanted: CloudSyncConfigView)
    ensures
        is_enabled(docs_after(docs, wanted)) == wanted.enabled,
{
    lemma_places();
    lemma_key_leaves_switch(docs, wanted.api_key);
    let config = effective_config(docs, wanted);
    config::law_config_reads_back(config);
    assert(config::config_of(config::prefs_doc(config), config.api_key).enabled == config.enabled);
}

/// A request changes no document but the settings and the credentials.
pub proof fn law_toggle_leaves_other_documents(docs: Docs, wanted: CloudSyncConfigView)
    ensures
        ({
            let prefs = (APP_STATE_COLLECTION@, CLOUD_PREFS_DOC@);
            let creds = (CLOUD_KEYS_COLLECTION@, CLOUD_CREDS_DOC@);
            docs_after(docs, wanted).remove(prefs).remove(creds) == docs.remove(prefs).remove(creds)
        }),
{
    let prefs = (APP_STATE_COLLECTION@, CLOUD_PREFS_DOC@);
    let creds = (CLOUD_KEYS_COLLECTION@, CLOUD_CREDS_DOC@);
    assert(docs_after(docs, wanted).remove(prefs).remove(creds) =~= docs.remove(prefs).remove(
        creds,
    ));
}

/// The key that a request comes to use is the one that is loaded afterwards, and the settings
/// hold no key then that could be loaded or moved.
pub proof fn law_used_key_is_loaded(docs: Docs, wanted: CloudSyncConfigView)
    ensures
        credentials::key_in_store(docs_after(docs, wanted)) == effective_key(docs, wanted.api_key),
        credentials::migrated(docs_after(docs, wanted)) == docs_after(docs, wanted),
        credentials::stored_key(
            host::doc_at(docs_after(docs, wanted), APP_STATE_COLLECTION@, CLOUD_PREFS_DOC@),
        ) is None,
        host::run(
            |w: LoadKeyView, r: ReplyView| credentials::load_key_next(w, r),
            credentials::load_key_start(),
            docs_after(docs, wanted),
            3,
        ) == (
            docs_after(docs, wanted),
            LoadKeyStepView::Done(effective_key(docs, wanted.api_key)),
        ),
{
    lemma_places();
    config::law_config_reads_back(effective_config(docs, wanted));
    credentials::law_migration(docs);
    credentials::law_load_api_key(docs_after(docs, wanted));
}

/// A key that comes with a request wins: it is the one that is loaded afterwards, the
/// credentials hold it and nothing else, and the settings have no field for a key, whatever an
/// older installation left in them.
pub proof fn law_fresh_key_wins(docs: Docs, wanted: CloudSyncConfigView)
    requires
        text::non_empty(wanted.api_key) is Some,
    ensures
        host::doc_at(docs_after(docs, wanted), APP_STATE_COLLECTION@, CLOUD_PREFS_DOC@) matches Some(
            d,
        ) ==> !d.contains_key("api_key"@),
        host::doc_at(docs_after(docs, wanted), CLOUD_KEYS_COLLECTION@, CLOUD_CREDS_DOC@) == Some(
            credentials::creds_doc(wanted.api_key),
        ),
        credentials::key_in_store(docs_after(docs, wanted)) == text::non_empty(wanted.api_key),
{
    lemma_places();
    config::law_config_reads_back(effective_config(docs, wanted));
    law_used_key_is_loaded(docs, wanted);
}

/// Settings that switch sync over are shown afterwards as they were requested, with the key
/// that the request came to use.
pub proof fn law_saved_settings_are_shown(docs: Docs, wanted: CloudSyncConfigView)
    requires
        wanted.enabled != is_enabled(docs),
    ensures
        host::run(
            |w: GetConfigView, r: ReplyView| config::get_config_next(w, r),
            config::get_config_start(),
            docs_after(docs, wanted),
            4,
        ) == (
            docs_after(docs, wanted),
            GetConfigStepView::Done(Some(effective_config(docs, wanted))),
        ),
{
    lemma_places();
    law_used_key_is_loaded(docs, wanted);
    config::law_config_reads_back(effective_config(docs, wanted));
    config::law_get_cloud_config(docs_after(docs, wanted));
}

/// After every request the settings are shown with the switch that was requested and with the
/// key that the request came to use; none are shown only where none were ever saved.
pub proof fn law_used_key_is_shown(docs: Docs, wanted: CloudSyncConfigView)
    ensures
        ({
            let (after, step) = host::run(
                |w: GetConfigView, r: ReplyView| config::get_config_next(w, r),
                config::get_config_start(),
                docs_after(docs, wanted),
                4,
            );
            &&& after == docs_after(docs, wanted)
            &&& match step {
                StepView::Done(Some(shown)) => shown.enabled == wanted.enabled && shown.api_key
                    == effective_key(docs, wanted.api_key),
                StepView::Done(None) => !wanted.enabled && host::doc_at(
                    docs,
                    APP_STATE_COLLECTION@,
                    CLOUD_PREFS_DOC@,
                ) is None,
                _ => false,
            }
        }),
{
    lemma_places();
    law_used_key_is_loaded(docs, wanted);
    law_switch_is_remembered(docs, wanted);
    config::law_get_cloud_config(docs_after(docs, wanted));
}

/// Once sync was switched on, the same request again changes nothing: no second syncer is
/// started and no event is told.
pub proof fn law_switching_on_twice(
    host: HostView<CloudStartView>,
    wanted: CloudSyncConfigView,
    self_id: Seq<char>,
    later_error: Option<Seq<char>>,
)
    requires
        wanted.enabled,
    ensures
        ({
            let (on, answer) = toggle_outcome(host, wanted, self_id, None);
            &&& answer == CloudToggleStepView::Done(ON@)
            &&& on.syncer is Some
            &&& toggle_outcome(on, wanted, self_id, later_error) == (on, answer)
        }),
{
    let docs = host.docs;
    let after = docs_after(docs, wanted);
    let creds = (CLOUD_KEYS_COLLECTION@, CLOUD_CREDS_DOC@);
    lemma_places();
    law_switch_is_remembered(docs, wanted);
    config::law_config_reads_back(effective_config(docs, wanted));
    credentials::law_migration(docs);
    if text::non_empty(wanted.api_key) is Some {
        assert(after.insert(creds, after[creds]) =~= after);
    } else if wanted.enabled != is_enabled(docs) {
        law_used_key_is_loaded(docs, wanted);
    }
}

/// The application's start, as a whole: where the saved settings have sync switched on, it is
/// switched on with them and with the key that the store holds.
pub open spec fn boot_outcome(
    host: HostView<CloudStartView>,
    self_id: Seq<char>,
    start_error: Option<Seq<char>>,
) -> HostView<CloudStartView> {
    match host::doc_at(host.docs, APP_STATE_COLLECTION@, CLOUD_PREFS_DOC@) {
        Some(doc) if document::flag_field(doc, "enabled"@) => toggle_outcome(
            HostView { docs: credentials::migrated(host.docs), ..host },
            config::config_of(doc, credentials::key_in_store(host.docs)),
            self_id,
            start_error,
        ).0,
        _ => host,
    }
}

proof fn lemma_boot_follows_toggle(
    step: CloudToggleStepView,
    host: HostView<CloudStartView>,
    start_error: Option<Seq<char>>,
    fuel: nat,
)
    ensures
        ({
            let (after, end) = host::run_sync(
                |w: CloudToggleView, r: ReplyView| switch::toggle_next(w, r),
                step,
                host,
                start_error,
                fuel,
            );
            host::run_sync(
                |w: CloudBootView, r: ReplyView| switch::boot_next(w, r),
                switch::boot_toggling(step),
                host,
                start_error,
                fuel,
            ) == (after, switch::boot_toggling(end))
        }),
    decreases fuel,
{
    if let StepView::Do(waiting, action) = step {
        if fuel > 0 {
            let (next_host, reply) = host::perform_sync(host, action, start_error);
            lemma_boot_follows_toggle(
                switch::toggle_next(waiting, reply),
                next_host,
                start_error,
                (fuel - 1) as nat,
            );
        }
    }
}

proof fn lemma_boot_fuel(
    step: CloudBootStepView,
    host: HostView<CloudStartView>,
    start_error: Option<Seq<char>>,
    fuel: nat,
)
    requires
        !(host::run_sync(
            |w: CloudBootView, r: ReplyView| switch::boot_next(w, r),
            step,
            host,
            start_error,
            fuel,
        ).1 is Do),
    ensures
        host::run_sync(
            |w: CloudBootView, r: ReplyView| switch::boot_next(w, r),
            step,
            host,
            start_error,
            fuel + 1,
        ) == host::run_sync(
            |w: CloudBootView, r: ReplyView| switch::boot_next(w, r),
            step,
            host,
            start_error,
            fuel,
        ),
    decreases fuel,
{
    if let StepView::Do(waiting, action) = step {
        if fuel > 0 {
            let (next_host, reply) = host::perform_sync(host, action, start_error);
            lemma_boot_fuel(
                switch::boot_next(waiting, reply),
                next_host,
                start_error,
                (fuel - 1) as nat,
            );
        }
    }
}

/// At the application's start cloud sync is switched on again, with the settings and the key
/// that were saved, exactly where it was on before; whatever comes of it, the start succeeds.
pub proof fn law_bootstrap_cloud_sync(
    host: HostView<CloudStartView>,
    self_id: Seq<char>,
    start_error: Option<Seq<char>>,
)
    ensures
        host::run_sync(
            |w: CloudBootView, r: ReplyView| switch::boot_next(w, r),
            switch::boot_start(self_id, host.syncer is Some),
            host,
            start_error,
            13,
        ) == (boot_outcome(host, self_id, start_error), CloudBootStepView::Done(())),
{
    lemma_places();
    if let Some(doc) = host::doc_at(host.docs, APP_STATE_COLLECTION@, CLOUD_PREFS_DOC@) {
        if document::flag_field(doc, "enabled"@) {
            let key = credentials::key_in_store(host.docs);
            let loaded = HostView { docs: credentials::migrated(host.docs), ..host };
            let wanted = config::config_of(doc, key);
            let step = switch::toggle_start(
                CloudRequestView { config: wanted, self_id, running: host.syncer is Some },
            );
            law_toggle_cloud_sync(loaded, wanted, self_id, start_error);
            lemma_boot_follows_toggle(step, loaded, start_error, 9);
            lemma_boot_fuel(switch::boot_toggling(step), loaded, start_error, 9);
            reveal_with_fuel(host::run_sync, 5);
        } else {
            reveal_with_fuel(host::run_sync, 3);
        }
    } else {
        reveal_with_fuel(host::run_sync, 3);
    }
}

/// Sync that was switched on from off comes back at the next start, on a host that runs no
/// syncer then: with the same settings and the same key.
pub proof fn law_sync_comes_back(
    docs: Docs,
    wanted: CloudSyncConfigView,
    self_id: Seq<char>,
    events: Seq<Seq<char>>,
)
    requires
        wanted.enabled,
        !is_enabled(docs),
    ensures
        boot_outcome(
            HostView { docs: docs_after(docs, wanted), made: None, syncer: None, events },
            self_id,
            None,
        ).syncer == Some(syncer_for(effective_config(docs, wanted), self_id)),
{
    let after = docs_after(docs, wanted);
    lemma_places();
    law_used_key_is_loaded(docs, wanted);
    law_switch_is_remembered(docs, wanted);
    config::law_config_reads_back(effective_config(docs, wanted));
}

/// The most actions that the switching takes yet, the one that it waits for included.
pub open spec fn toggle_actions_left(waiting: CloudToggleView) -> nat {
    match waiting {
        CloudToggleView::LoadKey(request, load) => 6 + credentials::load_actions_left(load),
        CloudToggleView::SaveKey(request) => 7,
        CloudToggleView::ReadPrefs { request, fresh } => 6,
        CloudToggleView::WritePrefs(request) => 5,
        CloudToggleView::Make { mode, api_key } => 4,
        CloudToggleView::SetKey(mode) => 3,
        CloudToggleView::Stop => 2,
        CloudToggleView::Start(mode) => 2,
        CloudToggleView::AnnounceOff => 1,
        CloudToggleView::AnnounceOn => 1,
    }
}

/// Whatever the host replies, switching cloud sync comes to an end, after nine actions at the
/// latest, and fails only where a syncer does not start.
pub proof fn law_switching_ends(
    request: CloudRequestView,
    waiting: CloudToggleView,
    reply: ReplyView,
)
    ensures
        switch::toggle_start(request) matches StepView::Do(first, action) && toggle_actions_left(
            first,
        ) <= 9,
        match switch::toggle_next(waiting, reply) {
            StepView::Do(next, action) => toggle_actions_left(next) < toggle_actions_left(waiting),
            StepView::Done(answer) => true,
            StepView::Fail(message) => waiting is Start && reply is Failed,
        },
{
    if let CloudToggleView::LoadKey(r, load) = waiting {
        credentials::law_loading_ends(load, reply);
    }
}

/// The most actions that the start takes yet, the one that it waits for included.
pub open spec fn boot_actions_left(waiting: CloudBootView) -> nat {
    match waiting {
        CloudBootView::ReadPrefs { self_id, running } => 13,
        CloudBootView::LoadKey(request, load) => 9 + credentials::load_actions_left(load),
        CloudBootView::Toggle(toggle) => toggle_actions_left(toggle),
    }
}

/// The most actions that the showing takes yet, the one that it waits for included.
pub open spec fn config_actions_left(waiting: GetConfigView) -> nat {
    match waiting {
        GetConfigView::ReadPrefs => 4,
        GetConfigView::LoadKey(shown, load) => credentials::load_actions_left(load),
    }
}

/// Whatever the host replies, the application's start and the showing of the settings come to
/// an end, and never fail.
pub proof fn law_start_and_show_end(
    booting: CloudBootView,
    showing: GetConfigView,
    reply: ReplyView,
)
    ensures
        match switch::boot_next(booting, reply) {
            StepView::Do(next, action) => boot_actions_left(next) < boot_actions_left(booting),
            StepView::Done(answer) => true,
            StepView::Fail(message) => false,
        },
        match config::get_config_next(showing, reply) {
            StepView::Do(next, action) => config_actions_left(next) < config_actions_left(showing),
            StepView::Done(answer) => true,
            StepView::Fail(message) => false,
        },
{
    match booting {
        CloudBootView::LoadKey(request, load) => {
            credentials::law_loading_ends(load, reply);
            if let StepView::Done(api_key) = credentials::load_key_next(load, reply) {
                law_switching_ends(
                    switch::with_key(request, api_key),
                    CloudToggleView::Stop,
                    reply,
                );
            }
        },
        CloudBootView::Toggle(toggle) => {
            if let CloudToggleView::LoadKey(request, load) = toggle {
                credentials::law_loading_ends(load, reply);
            }
        },
        _ => {},
    }
    if let GetConfigView::LoadKey(shown, load) = showing {
        credentials::law_loading_ends(load, reply);
    }
}

/// The settings that the switching is about to write back hold no key.
pub open spec fn scrubbed(waiting: CloudToggleView) -> bool {
    waiting matches CloudToggleView::LoadKey(request, load) ==> credentials::scrubbed(load)
}

/// A step of the switching that writes no key into the replicating collection, nor will.
pub open spec fn toggle_keeps_key_home(step: CloudToggleStepView) -> bool {
    step matches StepView::Do(waiting, action) ==> {
        &&& action matches SyncActionView::Store(store_action) ==> credentials::keeps_key_home(
            store_action,
        )
        &&& scrubbed(waiting)
    }
}

/// Whatever the host replies, switching cloud sync never writes a key into the replicating
/// collection: the first step does not, and no step leads to one that does.
pub proof fn law_toggle_keeps_key_home(
    request: CloudRequestView,
    waiting: CloudToggleView,
    reply: ReplyView,
)
    requires
        scrubbed(waiting),
    ensures
        toggle_keeps_key_home(switch::toggle_start(request)),
        toggle_keeps_key_home(switch::toggle_next(waiting, reply)),
{
    lemma_places();
    match waiting {
        CloudToggleView::LoadKey(r, load) => {
            credentials::law_load_keeps_key_home(load, reply);
        },
        CloudToggleView::ReadPrefs { request: r, fresh } => {
            config::law_config_reads_back(r.config);
        },
        _ => {},
    }
}

/// A step of the start that writes no key into the replicating collection, nor will.
pub open spec fn boot_keeps_key_home(step: CloudBootStepView) -> bool {
    step matches StepView::Do(waiting, action) ==> {
        &&& action matches SyncActionView::Store(store_action) ==> credentials::keeps_key_home(
            store_action,
        )
        &&& match waiting {
            CloudBootView::ReadPrefs { self_id, running } => true,
            CloudBootView::LoadKey(request, load) => credentials::scrubbed(load),
            CloudBootView::Toggle(toggle) => scrubbed(toggle),
        }
    }
}

/// A step of the showing that writes no key into the replicating collection, nor will.
pub open spec fn config_keeps_key_home(step: GetConfigStepView) -> bool {
    step matches StepView::Do(waiting, action) ==> {
        &&& credentials::keeps_key_home(action)
        &&& waiting matches GetConfigView::LoadKey(shown, load) ==> credentials::scrubbed(load)
    }
}

/// Whatever the host replies, neither the application's start nor the showing of the settings
/// writes a key into the replicating collection.
pub proof fn law_start_and_show_keep_key_home(
    self_id: Seq<char>,
    running: bool,
    request: CloudRequestView,
    load: LoadKeyView,
    toggle: CloudToggleView,
    shown: CloudSyncConfigView,
    reply: ReplyView,
)
    requires
        credentials::scrubbed(load),
        scrubbed(toggle),
    ensures
        boot_keeps_key_home(switch::boot_start(self_id, running)),
        boot_keeps_key_home(
            switch::boot_next(CloudBootView::ReadPrefs { self_id, running }, reply),
        ),
        boot_keeps_key_home(switch::boot_next(CloudBootView::LoadKey(request, load), reply)),
        boot_keeps_key_home(switch::boot_next(CloudBootView::Toggle(toggle), reply)),
        config_keeps_key_home(config::get_config_start()),
        config_keeps_key_home(config::get_config_next(GetConfigView::ReadPrefs, reply)),
        config_keeps_key_home(config::get_config_next(GetConfigView::LoadKey(shown, load), reply)),
{
    lemma_places();
    credentials::law_load_keeps_key_home(load, reply);
    law_toggle_keeps_key_home(request, toggle, reply);
    if let StepView::Done(api_key) = credentials::load_key_next(load, reply) {
        law_toggle_keeps_key_home(switch::with_key(request, api_key), toggle, reply);
    }
}

} // verus!
