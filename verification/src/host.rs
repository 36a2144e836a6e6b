//! What a command asks of the program around it, and what it is told in return.
//!
//! A command of this library does no input or output. It hands out one action at a time,
//! the host performs the action and answers with a [`Reply`], and the command goes on
//! from there until it is done.
use crate::document::{Doc, DocView};
use vstd::prelude::*;

verus! {

/// An action on the document store.
pub enum StoreAction {
    /// Read a document.
    Get { collection: String, id: String },
    /// Write a document, in place of one that is there.
    Put { collection: String, id: String, doc: Doc },
}

/// The content of a [`StoreAction`].
pub enum StoreActionView {
    Get { collection: Seq<char>, id: Seq<char> },
    Put { collection: Seq<char>, id: Seq<char>, doc: DocView },
}

impl DeepView for StoreAction {
    type V = StoreActionView;

    open spec fn deep_view(&self) -> StoreActionView {
        match self {
            StoreAction::Get { collection, id } => StoreActionView::Get {
                collection: collection@,
                id: id@,
            },
            StoreAction::Put { collection, id, doc } => StoreActionView::Put {
                collection: collection@,
                id: id@,
                doc: doc@,
            },
        }
    }
}

/// Asks for a document.
pub(crate) fn get(collection: &str, id: &str) -> (action: StoreAction)
    ensures
        action.deep_view() == (StoreActionView::Get { collection: collection@, id: id@ }),
{
    StoreAction::Get { collection: collection.to_string(), id: id.to_string() }
}

/// Asks for a document to be written.
pub(crate) fn put(collection: &str, id: &str, doc: Doc) -> (action: StoreAction)
    ensures
        action.deep_view() == (StoreActionView::Put { collection: collection@, id: id@, doc: doc@ }),
{
    StoreAction::Put { collection: collection.to_string(), id: id.to_string(), doc }
}

/// An action of a command that switches a syncer; `S` says how a syncer is made and where it
/// starts.
pub enum SyncAction<S> {
    /// Act on the document store.
    Store(StoreAction),
    /// Make a syncer, which does not run yet.
    Make(S),
    /// Hand the syncer just made the API key that it presents at its handshakes.
    SetKey(Option<String>),
    /// Start the syncer just made, and keep it if it starts.
    Start,
    /// Stop the syncer that is kept, and drop it.
    Stop,
    /// Tell the application's windows of an event.
    Emit(String),
}

/// The content of a [`SyncAction`].
pub enum SyncActionView<S> {
    Store(StoreActionView),
    Make(S),
    SetKey(Option<Seq<char>>),
    Start,
    Stop,
    Emit(Seq<char>),
}

impl<S: DeepView> DeepView for SyncAction<S> {
    type V = SyncActionView<S::V>;

    open spec fn deep_view(&self) -> SyncActionView<S::V> {
        match self {
            SyncAction::Store(action) => SyncActionView::Store(action.deep_view()),
            SyncAction::Make(setup) => SyncActionView::Make(setup.deep_view()),
            SyncAction::SetKey(api_key) => SyncActionView::SetKey(api_key.deep_view()),
            SyncAction::Start => SyncActionView::Start,
            SyncAction::Stop => SyncActionView::Stop,
            SyncAction::Emit(event) => SyncActionView::Emit(event@),
        }
    }
}

/// What came of an action: a read gives `Found`, `Missing` or `Failed`, any other action
/// `Done` or `Failed`.
pub enum Reply {
    Found(Doc),
    Missing,
    Failed(String),
    Done,
}

/// The content of a [`Reply`].
pub enum ReplyView {
    Found(DocView),
    Missing,
    Failed(Seq<char>),
    Done,
}

impl DeepView for Reply {
    type V = ReplyView;

    open spec fn deep_view(&self) -> ReplyView {
        match self {
            Reply::Found(doc) => ReplyView::Found(doc@),
            Reply::Missing => ReplyView::Missing,
            Reply::Failed(error) => ReplyView::Failed(error@),
            Reply::Done => ReplyView::Done,
        }
    }
}

/// The document that a read gave; a read that failed gave none.
pub open spec fn doc_of(reply: ReplyView) -> Option<DocView> {
    match reply {
        ReplyView::Found(doc) => Some(doc),
        _ => None,
    }
}

impl Reply {
    /// The document that a read gave, if it gave one.
    pub fn into_doc(self) -> (doc: Option<Doc>)
        ensures
            doc.deep_view() == doc_of(self.deep_view()),
            self matches Reply::Found(d) ==> doc.deep_view() == Some(d@),
            !(self is Found) ==> doc is None,
    {
        match self {
            Reply::Found(doc) => Some(doc),
            _ => None,
        }
    }
}

/// Where a command stands: it waits for a reply to an action, or it is done, or it failed
/// with a message.
pub enum Step<M, A, T> {
    Do(M, A),
    Done(T),
    Fail(String),
}

/// The content of a [`Step`].
pub enum StepView<M, A, T> {
    Do(M, A),
    Done(T),
    Fail(Seq<char>),
}

impl<M: DeepView, A: DeepView, T: DeepView> DeepView for Step<M, A, T> {
    type V = StepView<M::V, A::V, T::V>;

    open spec fn deep_view(&self) -> StepView<M::V, A::V, T::V> {
        match self {
            Step::Do(waiting, action) => StepView::Do(waiting.deep_view(), action.deep_view()),
            Step::Done(result) => StepView::Done(result.deep_view()),
            Step::Fail(message) => StepView::Fail(message@),
        }
    }
}

/// A document store that never fails: the documents by collection and id.
pub type Docs = Map<(Seq<char>, Seq<char>), DocView>;

/// The document of the given collection and id.
pub open spec fn doc_at(docs: Docs, collection: Seq<char>, id: Seq<char>) -> Option<DocView> {
    if docs.contains_key((collection, id)) {
        Some(docs[(collection, id)])
    } else {
        None
    }
}

/// What becomes of such a store by an action, and what it replies.
pub open spec fn perform(docs: Docs, action: StoreActionView) -> (Docs, ReplyView) {
    match action {
        StoreActionView::Get { collection, id } => (
            docs,
            match doc_at(docs, collection, id) {
                Some(doc) => ReplyView::Found(doc),
                None => ReplyView::Missing,
            },
        ),
        StoreActionView::Put { collection, id, doc } => (
            docs.insert((collection, id), doc),
            ReplyView::Done,
        ),
    }
}

/// Runs a command on such a store for at most `fuel` actions, and gives the store and the
/// step that it comes to.
pub open spec fn run<M, T>(
    next: spec_fn(M, ReplyView) -> StepView<M, StoreActionView, T>,
    step: StepView<M, StoreActionView, T>,
    docs: Docs,
    fuel: nat,
) -> (Docs, StepView<M, StoreActionView, T>)
    decreases fuel,
{
    match step {
        StepView::Do(waiting, action) if fuel > 0 => {
            let (after, reply) = perform(docs, action);
            run(next, next(waiting, reply), after, (fuel - 1) as nat)
        },
        _ => (docs, step),
    }
}

/// A syncer: how it was made, and the API key that it was handed.
pub struct SyncerView<S> {
    pub setup: S,
    pub api_key: Option<Seq<char>>,
}

/// A host whose store does not fail: its documents, the syncer that was made and does not run
/// yet, the syncer that runs, with the key that it had when it started, and the events that it
/// has told of.
pub struct HostView<S> {
    pub docs: Docs,
    pub made: Option<SyncerView<S>>,
    pub syncer: Option<SyncerView<S>>,
    pub events: Seq<Seq<char>>,
}

/// What becomes of such a host by an action, and what it replies. A start takes the syncer just
/// made; with `start_error`, where there is one, it fails and the syncer is dropped.
pub open spec fn perform_sync<S>(
    host: HostView<S>,
    action: SyncActionView<S>,
    start_error: Option<Seq<char>>,
) -> (HostView<S>, ReplyView) {
    match action {
        SyncActionView::Store(store_action) => {
            let (docs, reply) = perform(host.docs, store_action);
            (HostView { docs, ..host }, reply)
        },
        SyncActionView::Make(setup) => (
            HostView { made: Some(SyncerView { setup, api_key: None }), ..host },
            ReplyView::Done,
        ),
        SyncActionView::SetKey(api_key) => (
            HostView {
                made: match host.made {
                    Some(made) => Some(SyncerView { api_key, ..made }),
                    None => None,
                },
                ..host
            },
            ReplyView::Done,
        ),
        SyncActionView::Start => match start_error {
            Some(error) => (HostView { made: None, ..host }, ReplyView::Failed(error)),
            None => (HostView { made: None, syncer: host.made, ..host }, ReplyView::Done),
        },
        SyncActionView::Stop => (HostView { syncer: None, ..host }, ReplyView::Done),
        SyncActionView::Emit(event) => (
            HostView { events: host.events.push(event), ..host },
            ReplyView::Done,
        ),
    }
}

/// Runs a command on such a host for at most `fuel` actions, and gives the host and the step
/// that it comes to.
pub open spec fn run_sync<M, S, T>(
    next: spec_fn(M, ReplyView) -> StepView<M, SyncActionView<S>, T>,
    step: StepView<M, SyncActionView<S>, T>,
    host: HostView<S>,
    start_error: Option<Seq<char>>,
    fuel: nat,
) -> (HostView<S>, StepView<M, SyncActionView<S>, T>)
    decreases fuel,
{
    match step {
        StepView::Do(waiting, action) if fuel > 0 => {
            let (after, reply) = perform_sync(host, action, start_error);
            run_sync(next, next(waiting, reply), after, start_error, (fuel - 1) as nat)
        },
        _ => (host, step),
    }
}

/// The content of an action on the store, and of a reply, is what its own fields hold.
pub proof fn law_actions_and_replies_are_seen_whole(action: StoreAction, reply: Reply)
    ensures
        action matches StoreAction::Get { collection, id } ==> action.deep_view() == (
        StoreActionView::Get { collection: collection@, id: id@ }),
        action matches StoreAction::Put { collection, id, doc } ==> action.deep_view() == (
        StoreActionView::Put { collection: collection@, id: id@, doc: doc@ }),
        reply matches Reply::Found(doc) ==> reply.deep_view() == ReplyView::Found(doc@),
        reply is Missing ==> reply.deep_view() is Missing,
        reply matches Reply::Failed(error) ==> reply.deep_view() == ReplyView::Failed(error@),
        reply is Done ==> reply.deep_view() is Done,
{
}

/// The content of an action of a command that switches a syncer is what its own fields hold.
pub proof fn law_sync_actions_are_seen_whole<S: DeepView>(action: SyncAction<S>)
    ensures
        action matches SyncAction::Store(a) ==> action.deep_view() == SyncActionView::<S::V>::Store(
            a.deep_view(),
        ),
        action matches SyncAction::Make(setup) ==> action.deep_view() == SyncActionView::<
            S::V,
        >::Make(setup.deep_view()),
        action matches SyncAction::SetKey(key) ==> action.deep_view() == SyncActionView::<
            S::V,
        >::SetKey(key.deep_view()),
        action is Start ==> action.deep_view() is Start,
        action is Stop ==> action.deep_view() is Stop,
        action matches SyncAction::Emit(event) ==> action.deep_view() == SyncActionView::<
            S::V,
        >::Emit(event@),
{
}

} // verus!
