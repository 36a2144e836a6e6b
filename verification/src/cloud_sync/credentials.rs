//! The group API key: kept in the credentials document, moved there from the settings
//! document where an older installation left it.
use super::{APP_STATE_COLLECTION, CLOUD_CREDS_DOC, CLOUD_KEYS_COLLECTION, CLOUD_PREFS_DOC};
use crate::document;
use crate::document::{Doc, DocView, Value, ValueView};
use crate::host;
use crate::host::{Docs, Reply, ReplyView, Step, StepView, StoreAction, StoreActionView};
use crate::text;
use vstd::prelude::*;

verus! {

/// The key that a document holds, if it holds one that is not empty.
pub open spec fn stored_key(doc: Option<DocView>) -> Option<Seq<char>> {
    match doc {
        Some(d) => text::non_empty(document::text_field(d, "api_key"@)),
        None => None,
    }
}

/// The credentials document for a key; without a key it has no fields.
pub open spec fn creds_doc(key: Option<Seq<char>>) -> DocView {
    match text::non_empty(key) {
        Some(k) => Map::empty().insert("api_key"@, ValueView::Text(k)),
        None => Map::empty(),
    }
}

/// The action that writes the credentials document.
pub open spec fn save_key_action(key: Option<Seq<char>>) -> StoreActionView {
    StoreActionView::Put {
        collection: CLOUD_KEYS_COLLECTION@,
        id: CLOUD_CREDS_DOC@,
        doc: creds_doc(key),
    }
}

/// Asks for the key to be saved; an empty key or none clears the saved one.
pub fn save_api_key(api_key: Option<&str>) -> (action: StoreAction)
    ensures
        action.deep_view() == save_key_action(api_key.deep_view()),
{
    let mut doc = Doc::new();
    if let Some(key) = api_key {
        if !key.is_empty() {
            doc.insert("api_key", Value::Text(key.to_string()));
        }
    }
    host::put(CLOUD_KEYS_COLLECTION, CLOUD_CREDS_DOC, doc)
}

/// Reads the key that a document holds.
fn key_in(doc: &Doc) -> (key: Option<String>)
    ensures
        key.deep_view() == stored_key(Some(doc@)),
{
    text::keep_non_empty(doc.text("api_key"))
}

/// The command that loads the key, waiting for a reply.
pub enum LoadKey {
    /// Waits for the settings document.
    ReadPrefs,
    /// Waits for the key from the settings to be saved; `prefs` are the settings without it.
    Migrate { key: String, prefs: Doc },
    /// Waits for the settings without the key to be written.
    Scrub { key: String },
    /// Waits for the credentials document.
    ReadCreds,
}

/// The content of a [`LoadKey`].
pub enum LoadKeyView {
    ReadPrefs,
    Migrate { key: Seq<char>, prefs: DocView },
    Scrub { key: Seq<char> },
    ReadCreds,
}

impl DeepView for LoadKey {
    type V = LoadKeyView;

    open spec fn deep_view(&self) -> LoadKeyView {
        match self {
            LoadKey::ReadPrefs => LoadKeyView::ReadPrefs,
            LoadKey::Migrate { key, prefs } => LoadKeyView::Migrate { key: key@, prefs: prefs@ },
            LoadKey::Scrub { key } => LoadKeyView::Scrub { key: key@ },
            LoadKey::ReadCreds => LoadKeyView::ReadCreds,
        }
    }
}

/// Where the loading of the key stands, in content.
pub type LoadKeyStepView = StepView<LoadKeyView, StoreActionView, Option<Seq<char>>>;

/// Loading the key starts with a look at the settings.
pub open spec fn load_key_start() -> LoadKeyStepView {
    StepView::Do(
        LoadKeyView::ReadPrefs,
        StoreActionView::Get { collection: APP_STATE_COLLECTION@, id: CLOUD_PREFS_DOC@ },
    )
}

/// How the loading of the key goes on after a reply.
pub open spec fn load_key_next(waiting: LoadKeyView, reply: ReplyView) -> LoadKeyStepView {
    match waiting {
        LoadKeyView::ReadPrefs => match stored_key(host::doc_of(reply)) {
            Some(key) => StepView::Do(
                LoadKeyView::Migrate { key, prefs: host::doc_of(reply)->0.remove("api_key"@) },
                save_key_action(Some(key)),
            ),
            None => StepView::Do(
                LoadKeyView::ReadCreds,
                StoreActionView::Get { collection: CLOUD_KEYS_COLLECTION@, id: CLOUD_CREDS_DOC@ },
            ),
        },
        LoadKeyView::Migrate { key, prefs } => StepView::Do(
            LoadKeyView::Scrub { key },
            StoreActionView::Put {
                collection: APP_STATE_COLLECTION@,
                id: CLOUD_PREFS_DOC@,
                doc: prefs,
            },
        ),
        LoadKeyView::Scrub { key } => StepView::Done(Some(key)),
        LoadKeyView::ReadCreds => StepView::Done(stored_key(host::doc_of(reply))),
    }
}

/// Loads the key. A key that the settings hold is moved to the credentials first.
pub fn load_api_key() -> (step: Step<LoadKey, StoreAction, Option<String>>)
    ensures
        step.deep_view() == load_key_start(),
{
    Step::Do(LoadKey::ReadPrefs, host::get(APP_STATE_COLLECTION, CLOUD_PREFS_DOC))
}

impl LoadKey {
    /// Goes on after a reply.
    pub fn next(self, reply: Reply) -> (step: Step<LoadKey, StoreAction, Option<String>>)
        ensures
            step.deep_view() == load_key_next(self.deep_view(), reply.deep_view()),
    {
        match self {
            LoadKey::ReadPrefs => {
                if let Some(mut prefs) = reply.into_doc() {
                    if let Some(key) = key_in(&prefs) {
                        let _ = prefs.remove("api_key");
                        let action = save_api_key(Some(key.as_str()));
                        return Step::Do(LoadKey::Migrate { key, prefs }, action);
                    }
                }
                Step::Do(LoadKey::ReadCreds, host::get(CLOUD_KEYS_COLLECTION, CLOUD_CREDS_DOC))
            },
            LoadKey::Migrate { key, prefs } => Step::Do(
                LoadKey::Scrub { key },
                host::put(APP_STATE_COLLECTION, CLOUD_PREFS_DOC, prefs),
            ),
            LoadKey::Scrub { key } => Step::Done(Some(key)),
            LoadKey::ReadCreds => match reply.into_doc() {
                Some(creds) => Step::Done(key_in(&creds)),
                None => Step::Done(None),
            },
        }
    }
}

/// The key that a store holds: the one in the settings, else the one in the credentials.
pub open spec fn key_in_store(docs: Docs) -> Option<Seq<char>> {
    match stored_key(host::doc_at(docs, APP_STATE_COLLECTION@, CLOUD_PREFS_DOC@)) {
        Some(key) => Some(key),
        None => stored_key(host::doc_at(docs, CLOUD_KEYS_COLLECTION@, CLOUD_CREDS_DOC@)),
    }
}

/// The store with a key that the settings hold moved to the credentials.
pub open spec fn migrated(docs: Docs) -> Docs {
    let prefs = (APP_STATE_COLLECTION@, CLOUD_PREFS_DOC@);
    match stored_key(host::doc_at(docs, prefs.0, prefs.1)) {
        Some(key) => docs.insert(
            (CLOUD_KEYS_COLLECTION@, CLOUD_CREDS_DOC@),
            creds_doc(Some(key)),
        ).insert(prefs, docs[prefs].remove("api_key"@)),
        None => docs,
    }
}

/// On a store that does not fail, loading the key takes at most three actions, gives the
/// key that the store holds and leaves the store with the key moved.
pub proof fn law_load_api_key(docs: Docs)
    ensures
        host::run(|w: LoadKeyView, r: ReplyView| load_key_next(w, r), load_key_start(), docs, 3)
            == (migrated(docs), LoadKeyStepView::Done(key_in_store(docs))),
{
    reveal_with_fuel(host::run, 4);
}

/// Moving the key takes it out of the settings for good, and changes nothing else: the key
/// that the store holds stays the same, the settings keep their other fields, every other
/// document stays as it was, and there is nothing left to move.
pub proof fn law_migration(docs: Docs)
    ensures
        key_in_store(migrated(docs)) == key_in_store(docs),
        migrated(migrated(docs)) == migrated(docs),
        stored_key(host::doc_at(migrated(docs), APP_STATE_COLLECTION@, CLOUD_PREFS_DOC@)) is None,
        ({
            let prefs = (APP_STATE_COLLECTION@, CLOUD_PREFS_DOC@);
            let creds = (CLOUD_KEYS_COLLECTION@, CLOUD_CREDS_DOC@);
            &&& migrated(docs).contains_key(prefs) == docs.contains_key(prefs)
            &&& docs.contains_key(prefs) ==> migrated(docs)[prefs].remove("api_key"@)
                == docs[prefs].remove("api_key"@)
            &&& migrated(docs).remove(prefs).remove(creds) == docs.remove(prefs).remove(creds)
        }),
{
    reveal_strlit("app_state");
    reveal_strlit("__cloud_client");
    let prefs = (APP_STATE_COLLECTION@, CLOUD_PREFS_DOC@);
    let creds = (CLOUD_KEYS_COLLECTION@, CLOUD_CREDS_DOC@);
    assert(prefs.0.len() != creds.0.len());
    assert(prefs != creds);
    if docs.contains_key(prefs) {
        assert(docs[prefs].remove("api_key"@).remove("api_key"@) =~= docs[prefs].remove(
            "api_key"@,
        ));
    }
    assert(migrated(docs).remove(prefs).remove(creds) =~= docs.remove(prefs).remove(creds));
}

/// The most actions that the loading takes yet, the one that it waits for included.
pub open spec fn load_actions_left(waiting: LoadKeyView) -> nat {
    match waiting {
        LoadKeyView::ReadPrefs => 3,
        LoadKeyView::Migrate { key, prefs } => 2,
        LoadKeyView::Scrub { key } => 1,
        LoadKeyView::ReadCreds => 1,
    }
}

/// Whatever the host replies, loading the key comes to an end, and never fails.
pub proof fn law_loading_ends(waiting: LoadKeyView, reply: ReplyView)
    ensures
        match load_key_next(waiting, reply) {
            StepView::Do(next, action) => load_actions_left(next) < load_actions_left(waiting),
            StepView::Done(key) => true,
            StepView::Fail(message) => false,
        },
{
}

/// A key that is saved is the one that is loaded afterwards, and saving none clears it, on a
/// store whose settings hold no key; one that the settings hold would come first, which is why
/// the switching takes it out.
pub proof fn law_saved_key_is_loaded(docs: Docs, key: Option<Seq<char>>)
    requires
        stored_key(host::doc_at(docs, APP_STATE_COLLECTION@, CLOUD_PREFS_DOC@)) is None,
    ensures
        ({
            let after = host::perform(docs, save_key_action(key)).0;
            host::run(|w: LoadKeyView, r: ReplyView| load_key_next(w, r), load_key_start(), after, 3)
                == (after, LoadKeyStepView::Done(text::non_empty(key)))
        }),
{
    reveal_strlit("app_state");
    reveal_strlit("__cloud_client");
    assert(APP_STATE_COLLECTION@.len() != CLOUD_KEYS_COLLECTION@.len());
    law_load_api_key(host::perform(docs, save_key_action(key)).0);
}

/// An action that writes no key into the replicating collection.
pub open spec fn keeps_key_home(action: StoreActionView) -> bool {
    action matches StoreActionView::Put { collection, id, doc } ==> collection
        == APP_STATE_COLLECTION@ ==> !doc.contains_key("api_key"@)
}

/// The settings that the loading is about to write hold no key.
pub open spec fn scrubbed(waiting: LoadKeyView) -> bool {
    waiting matches LoadKeyView::Migrate { key, prefs } ==> !prefs.contains_key("api_key"@)
}

/// A step of the loading that writes no key into the replicating collection, nor will.
pub open spec fn load_keeps_key_home(step: LoadKeyStepView) -> bool {
    step matches StepView::Do(waiting, action) ==> keeps_key_home(action) && scrubbed(waiting)
}

/// Whatever the host replies, loading the key never writes a key into the replicating
/// collection: the first step does not, and no step leads to one that does.
pub proof fn law_load_keeps_key_home(waiting: LoadKeyView, reply: ReplyView)
    requires
        scrubbed(waiting),
    ensures
        load_keeps_key_home(load_key_start()),
        load_keeps_key_home(load_key_next(waiting, reply)),
{
    reveal_strlit("app_state");
    reveal_strlit("__cloud_client");
    assert(APP_STATE_COLLECTION@.len() != CLOUD_KEYS_COLLECTION@.len());
}

/// Loading the key, over its whole course: a text that is not empty in the `api_key` field of
/// the settings is the key, it becomes the only field of the credentials and leaves the
/// settings, and nothing else changes; without such a text nothing changes at all, and the key
/// is the text that is not empty in the `api_key` field of the credentials, if there is one.
pub proof fn law_key_is_found_and_moved(docs: Docs)
    ensures
        ({
            let prefs = ("app_state"@, "cloud_sync_prefs"@);
            let creds = ("__cloud_client"@, "creds"@);
            let (after, step) = host::run(
                |w: LoadKeyView, r: ReplyView| load_key_next(w, r),
                load_key_start(),
                docs,
                3,
            );
            if docs.contains_key(prefs) && docs[prefs].contains_key("api_key"@)
                && docs[prefs]["api_key"@] is Text && docs[prefs]["api_key"@]->Text_0.len() > 0 {
                let key = docs[prefs]["api_key"@]->Text_0;
                &&& step == LoadKeyStepView::Done(Some(key))
                &&& after == docs.insert(creds, map!["api_key"@ => ValueView::Text(key)]).insert(
                    prefs,
                    docs[prefs].remove("api_key"@),
                )
            } else {
                &&& after == docs
                &&& if docs.contains_key(creds) && docs[creds].contains_key("api_key"@)
                    && docs[creds]["api_key"@] is Text && docs[creds]["api_key"@]->Text_0.len()
                    > 0 {
                    step == LoadKeyStepView::Done(Some(docs[creds]["api_key"@]->Text_0))
                } else {
                    step == LoadKeyStepView::Done(None)
                }
            }
        }),
{
    law_load_api_key(docs);
}

/// Saving a key makes it the only field of the credentials; saving none, or an empty one, leaves
/// the credentials without fields. Nothing else changes.
pub proof fn law_saving_writes_the_credentials(docs: Docs, key: Option<Seq<char>>)
    ensures
        host::perform(docs, save_key_action(key)).0 == docs.insert(
            ("__cloud_client"@, "creds"@),
            if key is Some && key->0.len() > 0 {
                map!["api_key"@ => ValueView::Text(key->0)]
            } else {
                Map::empty()
            },
        ),
{
}

/// A read that fails is to the loading as if the document were missing, and a write that fails
/// as if it were done.
pub proof fn law_failures_do_not_stop_the_loading(waiting: LoadKeyView, error: Seq<char>)
    ensures
        load_key_next(waiting, ReplyView::Failed(error)) == load_key_next(
            waiting,
            ReplyView::Missing,
        ),
        load_key_next(waiting, ReplyView::Failed(error)) == load_key_next(
            waiting,
            ReplyView::Done,
        ),
{
}

} // verus!
