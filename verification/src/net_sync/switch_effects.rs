//! What a request to switch mesh sync comes to, in terms of the request and of the host.
use super::switch;
use super::switch::{
    NetBootStepView, NetBootView, NetRequestView, NetStartView, NetToggleStepView, NetToggleView,
};
use crate::document::{DocView, ValueView};
use crate::host;
use crate::host::{HostView, ReplyView, StepView, SyncActionView};
use vstd::prelude::*;

verus! {

/// Runs the switching on a host.
pub open spec fn run_toggle(
    host: HostView<NetStartView>,
    request: NetRequestView,
    start_error: Option<Seq<char>>,
) -> (HostView<NetStartView>, NetToggleStepView) {
    host::run_sync(
        |w: NetToggleView, r: ReplyView| switch::toggle_next(w, r),
        switch::toggle_start(request),
        host,
        start_error,
        6,
    )
}

/// Switched on where no syncer runs, a syncer starts at the port that was given, for the device
/// that was given. It leaves out exactly the collections that were given, or the application
/// state alone where none were given. Its room is the one with the key that was given, if that is
/// not empty, or else the one whose key is a text and not empty in the group document, or else
/// the default one.
pub proof fn law_syncer_starts_as_requested(host: HostView<NetStartView>, request: NetRequestView)
    requires
        request.enabled,
        !request.running,
        host.syncer is None,
    ensures
        ({
            let group = ("app_state"@, "sync_group"@);
            let docs = host.docs;
            let (after, answer) = run_toggle(host, request, None);
            &&& answer == NetToggleStepView::Done("ON"@)
            &&& after.made is None
            &&& after.events == host.events.push("sync_on"@)
            &&& after.syncer is Some
            &&& after.syncer->0.api_key is None
            &&& after.syncer->0.setup.port == request.port
            &&& after.syncer->0.setup.self_id == request.self_id
            &&& request.excluded matches Some(collections) ==> after.syncer->0.setup.excluded
                == collections
            &&& request.excluded is None ==> after.syncer->0.setup.excluded == seq!["app_state"@]
            &&& after.syncer->0.setup.room_key == if request.room_key is Some
                && request.room_key->0.len() > 0 {
                request.room_key->0
            } else if docs.contains_key(group) && docs[group].contains_key("room_key"@)
                && docs[group]["room_key"@] is Text && docs[group]["room_key"@]->Text_0.len() > 0 {
                docs[group]["room_key"@]->Text_0
            } else {
                "default"@
            }
        }),
{
    switch::law_toggle_net_sync(host, request, None);
}

/// Switched off, no syncer runs any more and the windows are told, whether or not one ran.
pub proof fn law_switched_off_nothing_runs(
    host: HostView<NetStartView>,
    request: NetRequestView,
    start_error: Option<Seq<char>>,
)
    requires
        !request.enabled,
        request.running == (host.syncer is Some),
    ensures
        ({
            let (after, answer) = run_toggle(host, request, start_error);
            &&& answer == NetToggleStepView::Done("OFF"@)
            &&& after.syncer is None
            &&& after.made == host.made
            &&& after.events == host.events.push("sync_off"@)
        }),
{
    switch::law_toggle_net_sync(host, request, start_error);
}

/// Switched on where a syncer runs, that one stays as it is and nothing is told.
pub proof fn law_running_syncer_is_kept(
    host: HostView<NetStartView>,
    request: NetRequestView,
    start_error: Option<Seq<char>>,
)
    requires
        request.enabled,
        request.running,
        host.syncer is Some,
    ensures
        ({
            let (after, answer) = run_toggle(host, request, start_error);
            &&& answer == NetToggleStepView::Done("ON"@)
            &&& after.syncer == host.syncer
            &&& after.made == host.made
            &&& after.events == host.events
        }),
{
    switch::law_toggle_net_sync(host, request, start_error);
}

/// Where the syncer does not start, none runs, nothing is told, and the answer is the error.
pub proof fn law_failed_start_is_answered(
    host: HostView<NetStartView>,
    request: NetRequestView,
    error: Seq<char>,
)
    requires
        request.enabled,
        !request.running,
        host.syncer is None,
    ensures
        ({
            let (after, answer) = run_toggle(host, request, Some(error));
            &&& answer == NetToggleStepView::Fail(error)
            &&& after.syncer is None
            &&& after.made is None
            &&& after.events == host.events
        }),
{
    switch::law_toggle_net_sync(host, request, Some(error));
}

/// The store after a request, whatever comes of the start: the switch is the only field of the
/// document that remembers it, where the request switches sync over; otherwise that document
/// stays as it was. No other document changes.
pub proof fn law_documents_after_switching(
    host: HostView<NetStartView>,
    request: NetRequestView,
    start_error: Option<Seq<char>>,
)
    requires
        request.running == (host.syncer is Some),
    ensures
        ({
            let prefs = ("app_state"@, "sync_prefs"@);
            let docs = host.docs;
            let was_enabled = docs.contains_key(prefs) && docs[prefs].contains_key("enabled"@)
                && docs[prefs]["enabled"@] == ValueView::Bool(true);
            run_toggle(host, request, start_error).0.docs == if request.enabled != was_enabled {
                docs.insert(prefs, map!["enabled"@ => ValueView::Bool(request.enabled)])
            } else {
                docs
            }
        }),
{
    switch::law_toggle_net_sync(host, request, start_error);
}

/// At the application's start sync is switched on with the port, the device and the collections
/// that are given, and without a room key, exactly where it is remembered as on; elsewhere
/// nothing is done. Either way the start succeeds.
pub proof fn law_start_is_a_switching_on(
    host: HostView<NetStartView>,
    port: u16,
    self_id: Seq<char>,
    excluded: Option<Seq<Seq<char>>>,
    start_error: Option<Seq<char>>,
)
    ensures
        ({
            let prefs = ("app_state"@, "sync_prefs"@);
            let docs = host.docs;
            let running = host.syncer is Some;
            let request = NetRequestView {
                enabled: true,
                port,
                self_id,
                room_key: None,
                excluded,
                running,
            };
            let (after, answer) = host::run_sync(
                |w: NetBootView, r: ReplyView| switch::boot_next(w, r),
                switch::boot_start(request),
                host,
                start_error,
                6,
            );
            &&& answer == NetBootStepView::Done(())
            &&& if docs.contains_key(prefs) && docs[prefs].contains_key("enabled"@)
                && docs[prefs]["enabled"@] == ValueView::Bool(true) {
                &&& after == run_toggle(host, request, start_error).0
                &&& start_error is None && !running ==> {
                    &&& after.syncer is Some
                    &&& after.syncer->0.setup.port == port
                    &&& after.syncer->0.setup.self_id == self_id
                    &&& excluded matches Some(collections) ==> after.syncer->0.setup.excluded
                        == collections
                    &&& excluded is None ==> after.syncer->0.setup.excluded == seq!["app_state"@]
                }
            } else {
                after == host
            }
        }),
{
    let running = host.syncer is Some;
    let request = NetRequestView {
        enabled: true,
        port,
        self_id,
        room_key: None,
        excluded,
        running,
    };
    switch::law_bootstrap_sync(host, port, self_id, excluded, start_error);
    switch::law_toggle_net_sync(host, request, start_error);
}

/// The room key of a group document is the text in its `room_key` field, where that is not
/// empty.
pub proof fn law_room_key_is_a_text(group: Option<DocView>)
    ensures
        switch::room_key_in(group) == if group is Some && group->0.contains_key("room_key"@)
            && group->0["room_key"@] is Text && group->0["room_key"@]->Text_0.len() > 0 {
            Some(group->0["room_key"@]->Text_0)
        } else {
            None
        },
{
}

/// A read that fails is to the switching as if the document were missing, and any other action
/// that fails as if it were done, but for the start of the syncer.
pub proof fn law_failures_do_not_stop_the_switching(
    waiting: NetToggleView,
    request: NetRequestView,
    reply: ReplyView,
    error: Seq<char>,
)
    ensures
        !(waiting is Start) ==> switch::toggle_next(waiting, ReplyView::Failed(error))
            == switch::toggle_next(waiting, ReplyView::Missing) && switch::toggle_next(
            waiting,
            ReplyView::Failed(error),
        ) == switch::toggle_next(waiting, ReplyView::Done),
        waiting is Start && !(reply is Failed) ==> switch::toggle_next(waiting, reply)
            == switch::toggle_next(waiting, ReplyView::Done),
        switch::boot_next(NetBootView::Toggle(waiting), reply) == match switch::toggle_next(
            waiting,
            reply,
        ) {
            StepView::Do(next, action) => StepView::Do(NetBootView::Toggle(next), action),
            _ => StepView::Done(()),
        },
        switch::boot_next(NetBootView::ReadPrefs(request), ReplyView::Failed(error))
            == switch::boot_next(NetBootView::ReadPrefs(request), ReplyView::Missing),
        switch::boot_next(NetBootView::ReadPrefs(request), ReplyView::Failed(error))
            == NetBootStepView::Done(()),
{
}

/// The windows are told last: once they are, nothing more is done, whatever comes of it.
pub proof fn law_telling_comes_last(waiting: NetToggleView, reply: ReplyView, later: ReplyView)
    ensures
        switch::toggle_next(waiting, reply) matches StepView::Do(next, SyncActionView::Emit(event))
            ==> switch::toggle_next(next, later) is Done,
{
}

} // verus!
