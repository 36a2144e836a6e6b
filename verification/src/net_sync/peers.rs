//! The peers that are online, with what the security collection knows of them.
use crate::document::{Doc, DocView, Value, ValueView};
use vstd::prelude::*;

verus! {

/// The status of a peer that the security collection does not know.
pub const NEW_DEVICE_STATUS: &'static str = "new_device";

/// The name of a peer that the security collection does not know.
pub const NEW_DEVICE_NAME: &'static str = "Perangkat Baru";

/// One peer as it is listed.
pub struct PeerEntry {
    pub id: String,
    pub is_online: bool,
    pub status: Value,
    pub name: Value,
}

/// The content of a [`PeerEntry`].
pub struct PeerEntryView {
    pub id: Seq<char>,
    pub is_online: bool,
    pub status: ValueView,
    pub name: ValueView,
}

impl DeepView for PeerEntry {
    type V = PeerEntryView;

    open spec fn deep_view(&self) -> PeerEntryView {
        PeerEntryView {
            id: self.id@,
            is_online: self.is_online,
            status: self.status@,
            name: self.name@,
        }
    }
}

/// A query for the documents of a collection that have one of the given ids.
pub struct PeerQuery {
    pub collection: String,
    pub ids: Vec<String>,
}

/// The content of a [`PeerQuery`].
pub struct PeerQueryView {
    pub collection: Seq<char>,
    pub ids: Seq<Seq<char>>,
}

impl DeepView for PeerQuery {
    type V = PeerQueryView;

    open spec fn deep_view(&self) -> PeerQueryView {
        PeerQueryView { collection: self.collection@, ids: self.ids.deep_view() }
    }
}

/// A listing that waits for the documents of its peers.
pub struct PeerListing {
    live_ids: Vec<String>,
}

impl DeepView for PeerListing {
    type V = Seq<Seq<char>>;

    closed spec fn deep_view(&self) -> Seq<Seq<char>> {
        self.live_ids.deep_view()
    }
}

/// Where a listing stands: it waits for a query, or it is done.
pub enum PeerStep {
    Query(PeerListing, PeerQuery),
    Done(Vec<PeerEntry>),
}

/// The content of a [`PeerStep`].
pub enum PeerStepView {
    Query(Seq<Seq<char>>, PeerQueryView),
    Done(Seq<PeerEntryView>),
}

impl DeepView for PeerStep {
    type V = PeerStepView;

    open spec fn deep_view(&self) -> PeerStepView {
        match self {
            PeerStep::Query(listing, query) => PeerStepView::Query(
                listing.deep_view(),
                query.deep_view(),
            ),
            PeerStep::Done(peers) => PeerStepView::Done(peers.deep_view()),
        }
    }
}

/// The last of the rows with the given id.
pub open spec fn last_row(rows: Seq<(Seq<char>, DocView)>, id: Seq<char>) -> Option<DocView>
    decreases rows.len(),
{
    if rows.len() == 0 {
        None
    } else if rows.last().0 == id {
        Some(rows.last().1)
    } else {
        last_row(rows.drop_last(), id)
    }
}

/// The named field of a document, or else the given text.
pub open spec fn field_or(doc: Option<DocView>, name: Seq<char>, default: Seq<char>) -> ValueView {
    match doc {
        Some(d) if d.contains_key(name) => d[name],
        _ => ValueView::Text(default),
    }
}

/// How a live peer is listed, given the rows that the query found.
pub open spec fn peer_entry(id: Seq<char>, rows: Seq<(Seq<char>, DocView)>) -> PeerEntryView {
    let doc = last_row(rows, id);
    PeerEntryView {
        id,
        is_online: true,
        status: field_or(doc, "status"@, NEW_DEVICE_STATUS@),
        name: field_or(doc, "name"@, NEW_DEVICE_NAME@),
    }
}

/// The listing: every live peer once for each time it is live, in order, and no other.
pub open spec fn peer_list(
    live_ids: Seq<Seq<char>>,
    rows: Seq<(Seq<char>, DocView)>,
) -> Seq<PeerEntryView> {
    live_ids.map_values(|id: Seq<char>| peer_entry(id, rows))
}

/// How a listing starts: without live peers there is nothing to ask.
pub open spec fn peers_start(collection: Seq<char>, live_ids: Seq<Seq<char>>) -> PeerStepView {
    if live_ids.len() == 0 {
        PeerStepView::Done(Seq::empty())
    } else {
        PeerStepView::Query(live_ids, PeerQueryView { collection, ids: live_ids })
    }
}

fn copy_texts(texts: &Vec<String>) -> (copy: Vec<String>)
    ensures
        copy.deep_view() == texts.deep_view(),
{
    let mut copy: Vec<String> = Vec::new();
    let mut i: usize = 0;
    while i < texts.len()
        invariant
            i <= texts@.len(),
            copy@.len() == i,
            forall|j: int| 0 <= j < i ==> (#[trigger] copy@[j])@ == texts@[j]@,
        decreases texts@.len() - i,
    {
        copy.push(texts[i].clone());
        i = i + 1;
    }
    assert(copy.deep_view() =~= texts.deep_view());
    copy
}

/// Lists the peers that are online; a syncer that does not run has none. The security
/// collection is asked for their documents.
pub fn list_network_peers(security_collection: &str, live_ids: Option<Vec<String>>) -> (step:
    PeerStep)
    ensures
        step.deep_view() == peers_start(
            security_collection@,
            match live_ids.deep_view() {
                Some(ids) => ids,
                None => Seq::empty(),
            },
        ),
{
    if let Some(live_ids) = live_ids {
        if live_ids.len() > 0 {
            let ids = copy_texts(&live_ids);
            return PeerStep::Query(
                PeerListing { live_ids },
                PeerQuery { collection: security_collection.to_string(), ids },
            );
        }
    }
    let none: Vec<PeerEntry> = Vec::new();
    assert(none.deep_view() =~= Seq::<PeerEntryView>::empty());
    PeerStep::Done(none)
}

fn find_row<'a>(rows: &'a Vec<(String, Doc)>, id: &String) -> (found: Option<&'a Doc>)
    ensures
        found.deep_view() == last_row(rows.deep_view(), id@),
{
    let ghost all = rows.deep_view();
    let mut i: usize = rows.len();
    assert(all.take(i as int) =~= all);
    while i > 0
        invariant
            i <= rows@.len(),
            all == rows.deep_view(),
            last_row(all, id@) == last_row(all.take(i as int), id@),
        decreases i,
    {
        proof {
            assert(all.take(i as int).last() == (rows@[i - 1].0@, rows@[i - 1].1@));
            assert(all.take(i as int).drop_last() =~= all.take(i - 1));
        }
        i = i - 1;
        if rows[i].0 == *id {
            return Some(&rows[i].1);
        }
    }
    None
}

fn field_or_text(doc: Option<&Doc>, name: &str, default: &str) -> (value: Value)
    ensures
        value@ == field_or(doc.deep_view(), name@, default@),
{
    if let Some(d) = doc {
        if let Some(value) = d.get(name) {
            return value.duplicate();
        }
    }
    Value::Text(default.to_string())
}

impl PeerListing {
    /// Goes on with the rows that the query found, or with its error.
    pub fn found(self, rows: Result<Vec<(String, Doc)>, String>) -> (peers: Result<
        Vec<PeerEntry>,
        String,
    >)
        ensures
            match rows {
                Ok(rows) => peers matches Ok(list) && list.deep_view() == peer_list(
                    self.deep_view(),
                    rows.deep_view(),
                ),
                Err(error) => peers matches Err(message) && message@ == error@,
            },
    {
        let rows = match rows {
            Ok(rows) => rows,
            Err(error) => {
                return Err(error);
            },
        };
        let ghost ids = self.live_ids.deep_view();
        let mut list: Vec<PeerEntry> = Vec::new();
        let mut i: usize = 0;
        while i < self.live_ids.len()
            invariant
                i <= self.live_ids@.len(),
                list@.len() == i,
                forall|j: int|
                    0 <= j < i ==> (#[trigger] list@[j]).deep_view() == peer_entry(
                        self.live_ids@[j]@,
                        rows.deep_view(),
                    ),
            decreases self.live_ids@.len() - i,
        {
            let doc = find_row(&rows, &self.live_ids[i]);
            let entry = PeerEntry {
                id: self.live_ids[i].clone(),
                is_online: true,
                status: field_or_text(doc, "status", NEW_DEVICE_STATUS),
                name: field_or_text(doc, "name", NEW_DEVICE_NAME),
            };
            list.push(entry);
            i = i + 1;
        }
        assert(list.deep_view() =~= peer_list(ids, rows.deep_view()));
        Ok(list)
    }
}

proof fn lemma_last_row(rows: Seq<(Seq<char>, DocView)>, id: Seq<char>)
    ensures
        match last_row(rows, id) {
            Some(doc) => exists|i: int|
                #![trigger rows[i]]
                0 <= i < rows.len() && rows[i] == (id, doc) && forall|j: int|
                    i < j < rows.len() ==> (#[trigger] rows[j]).0 != id,
            None => forall|i: int| 0 <= i < rows.len() ==> (#[trigger] rows[i]).0 != id,
        },
    decreases rows.len(),
{
    if rows.len() > 0 {
        let last = rows.len() - 1;
        if rows[last].0 == id {
            assert(rows[last] == (id, rows[last].1));
        } else {
            let head = rows.drop_last();
            lemma_last_row(head, id);
            if let Some(doc) = last_row(head, id) {
                let i = choose|i: int|
                    #![trigger head[i]]
                    0 <= i < head.len() && head[i] == (id, doc) && forall|j: int|
                        i < j < head.len() ==> (#[trigger] head[j]).0 != id;
                assert(rows[i] == head[i]);
                assert forall|j: int| i < j < rows.len() implies (#[trigger] rows[j]).0 != id by {
                    if j < last {
                        assert(rows[j] == head[j]);
                    }
                }
            } else {
                assert forall|i: int| 0 <= i < rows.len() implies (#[trigger] rows[i]).0 != id by {
                    if i < last {
                        assert(rows[i] == head[i]);
                    }
                }
            }
        }
    }
}

/// A listing holds the live peers and no others, in the order in which they are live, each of
/// them online; a peer that the security collection does not know is a new device.
pub proof fn law_only_live_peers_are_listed(
    live_ids: Seq<Seq<char>>,
    rows: Seq<(Seq<char>, DocView)>,
)
    ensures
        ({
            let list = peer_list(live_ids, rows);
            &&& list.map_values(|entry: PeerEntryView| entry.id) == live_ids
            &&& forall|i: int|
                0 <= i < list.len() ==> {
                    let entry = #[trigger] list[i];
                    &&& entry.is_online
                    &&& (forall|j: int| 0 <= j < rows.len() ==> (#[trigger] rows[j]).0 != entry.id)
                        ==> entry.status == ValueView::Text(NEW_DEVICE_STATUS@) && entry.name
                        == ValueView::Text(NEW_DEVICE_NAME@)
                }
        }),
{
    let list = peer_list(live_ids, rows);
    assert(list.map_values(|entry: PeerEntryView| entry.id) =~= live_ids);
    assert forall|i: int| 0 <= i < list.len() implies {
        let entry = #[trigger] list[i];
        &&& entry.is_online
        &&& (forall|j: int| 0 <= j < rows.len() ==> (#[trigger] rows[j]).0 != entry.id)
            ==> entry.status == ValueView::Text(NEW_DEVICE_STATUS@) && entry.name
            == ValueView::Text(NEW_DEVICE_NAME@)
    } by {
        lemma_last_row(rows, live_ids[i]);
    }
}

/// A live peer that the security collection knows is listed with the status and the name
/// that its document holds; of several rows for it the last one counts.
pub proof fn law_known_peers_are_described(
    live_ids: Seq<Seq<char>>,
    rows: Seq<(Seq<char>, DocView)>,
    i: int,
    at: int,
)
    requires
        0 <= i < live_ids.len(),
        0 <= at < rows.len(),
        rows[at].0 == live_ids[i],
        forall|j: int| at < j < rows.len() ==> (#[trigger] rows[j]).0 != live_ids[i],
    ensures
        rows[at].1.contains_key("status"@) ==> peer_list(live_ids, rows)[i].status
            == rows[at].1["status"@],
        rows[at].1.contains_key("name"@) ==> peer_list(live_ids, rows)[i].name
            == rows[at].1["name"@],
{
    lemma_last_row(rows, live_ids[i]);
    assert(last_row(rows, live_ids[i]) == Some(rows[at].1)) by {
        match last_row(rows, live_ids[i]) {
            Some(doc) => {
                let k = choose|k: int|
                    #![trigger rows[k]]
                    0 <= k < rows.len() && rows[k] == (live_ids[i], doc) && forall|j: int|
                        k < j < rows.len() ==> (#[trigger] rows[j]).0 != live_ids[i];
                assert(k == at);
            },
            None => {},
        }
    }
}

/// Without live peers nothing is asked and nobody is listed; otherwise the collection that was
/// given is asked for the documents of exactly the live peers.
pub proof fn law_live_peers_are_asked_for(collection: Seq<char>, live_ids: Seq<Seq<char>>)
    ensures
        live_ids.len() == 0 ==> peers_start(collection, live_ids) == PeerStepView::Done(
            Seq::empty(),
        ),
        live_ids.len() > 0 ==> (peers_start(collection, live_ids) matches PeerStepView::Query(
            listing,
            query,
        ) && listing == live_ids && query.collection == collection && query.ids == live_ids),
{
}

/// Each place of the listing, in full: the live peer at that place, online, with the `status`
/// and the `name` of the last row for it as they are stored, or "new_device" and "Perangkat Baru"
/// where that row lacks the field or there is no row for it.
pub proof fn law_peers_are_listed_in_full(
    live_ids: Seq<Seq<char>>,
    rows: Seq<(Seq<char>, DocView)>,
    i: int,
)
    requires
        0 <= i < live_ids.len(),
    ensures
        ({
            let list = peer_list(live_ids, rows);
            let entry = list[i];
            &&& list.len() == live_ids.len()
            &&& entry.id == live_ids[i]
            &&& entry.is_online
            &&& forall|at: int|
                0 <= at < rows.len() && (#[trigger] rows[at]).0 == live_ids[i] && (forall|j: int|
                    at < j < rows.len() ==> (#[trigger] rows[j]).0 != live_ids[i]) ==> {
                    &&& entry.status == if rows[at].1.contains_key("status"@) {
                        rows[at].1["status"@]
                    } else {
                        ValueView::Text("new_device"@)
                    }
                    &&& entry.name == if rows[at].1.contains_key("name"@) {
                        rows[at].1["name"@]
                    } else {
                        ValueView::Text("Perangkat Baru"@)
                    }
                }
            &&& (forall|j: int| 0 <= j < rows.len() ==> (#[trigger] rows[j]).0 != live_ids[i]) ==> {
                &&& entry.status == ValueView::Text("new_device"@)
                &&& entry.name == ValueView::Text("Perangkat Baru"@)
            }
        }),
{
    let id = live_ids[i];
    lemma_last_row(rows, id);
    assert forall|at: int|
        0 <= at < rows.len() && (#[trigger] rows[at]).0 == id && (forall|j: int|
            at < j < rows.len() ==> (#[trigger] rows[j]).0 != id) implies last_row(rows, id) == Some(
        rows[at].1,
    ) by {
        if let Some(doc) = last_row(rows, id) {
            let k = choose|k: int|
                #![trigger rows[k]]
                0 <= k < rows.len() && rows[k] == (id, doc) && forall|j: int|
                    k < j < rows.len() ==> (#[trigger] rows[j]).0 != id;
            assert(k == at);
        }
    }
}

/// The content of a listed peer, and of a query, is what its own fields hold.
pub proof fn law_peers_are_seen_whole(peer: PeerEntry, query: PeerQuery)
    ensures
        peer.deep_view().id == peer.id@,
        peer.deep_view().is_online == peer.is_online,
        peer.deep_view().status == peer.status@,
        peer.deep_view().name == peer.name@,
        query.deep_view().collection == query.collection@,
        query.deep_view().ids == query.ids.deep_view(),
{
}

} // verus!
