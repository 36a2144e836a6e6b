//! Group policies: who a room admits.
//!
//! A room without a policy document, or with the mode "open", admits everyone. The mode
//! "registered" admits only clients that present a valid API key, and of those only the
//! listed members where the list is not empty. Only the hash of the key is stored.
use super::GROUPS_COLLECTION;
use crate::document;
use crate::document::{Doc, DocView, Value, ValueView};
use crate::host;
use crate::host::{Reply, ReplyView, StoreAction, StoreActionView};
use crate::text;
use vstd::prelude::*;
use vstd::utf8;

verus! {

/// The fewest bytes of a key that is taken.
pub const MIN_KEY_BYTES: usize = 16;

/// The answer to an empty room name.
pub const EMPTY_ROOM: &'static str = "Nama room tidak boleh kosong.";

/// The answer to a mode that is neither of the two.
pub const UNKNOWN_MODE: &'static str = "Mode harus \"open\" atau \"registered\".";

/// The answer to a key that is too short.
pub const SHORT_KEY: &'static str = "API key minimal 16 karakter.";

/// The answer to a switch to "registered" without a key.
pub const KEY_NEEDED: &'static str = "Mode registered butuh API key — buat/generate dulu.";

/// The answer to an empty client id.
pub const EMPTY_CLIENT: &'static str = "Client ID tidak boleh kosong.";

/// What a room's policy document says, as far as it is shown. The mode is shown as stored.
pub struct GroupPolicy {
    pub room_name: String,
    pub mode: String,
    pub has_key: bool,
    pub members: Vec<String>,
}

/// The content of a [`GroupPolicy`].
pub struct GroupPolicyView {
    pub room_name: Seq<char>,
    pub mode: Seq<char>,
    pub has_key: bool,
    pub members: Seq<Seq<char>>,
}

impl DeepView for GroupPolicy {
    type V = GroupPolicyView;

    open spec fn deep_view(&self) -> GroupPolicyView {
        GroupPolicyView {
            room_name: self.room_name@,
            mode: self.mode@,
            has_key: self.has_key,
            members: self.members.deep_view(),
        }
    }
}

/// The two modes that a policy can be given.
#[derive(Clone, Copy)]
pub enum GroupMode {
    Open,
    Registered,
}

impl DeepView for GroupMode {
    type V = GroupMode;

    open spec fn deep_view(&self) -> GroupMode {
        *self
    }
}

/// The mode as it is stored.
pub open spec fn mode_text(mode: GroupMode) -> Seq<char> {
    match mode {
        GroupMode::Open => "open"@,
        GroupMode::Registered => "registered"@,
    }
}

/// The mode that a text names: white space around it and the case of its letters do not
/// matter.
pub open spec fn mode_named(name: Seq<char>) -> Option<GroupMode> {
    let t = text::trimmed(name);
    if text::same_but_for_case(t, "open"@) {
        Some(GroupMode::Open)
    } else if text::same_but_for_case(t, "registered"@) {
        Some(GroupMode::Registered)
    } else {
        None
    }
}

/// Reads the name of a mode. Folding the ASCII letters is enough: the lower case of no other
/// character consists of letters of either name.
pub fn parse_group_mode(name: &str) -> (mode: Option<GroupMode>)
    ensures
        mode == mode_named(name@),
{
    let t = text::trim(name);
    if text::eq_ignore_ascii_case(t.as_str(), "open") {
        Some(GroupMode::Open)
    } else if text::eq_ignore_ascii_case(t.as_str(), "registered") {
        Some(GroupMode::Registered)
    } else {
        None
    }
}

/// The texts among the values, in order.
pub open spec fn texts(items: Seq<ValueView>) -> Seq<Seq<char>>
    decreases items.len(),
{
    if items.len() == 0 {
        Seq::empty()
    } else {
        let head = texts(items.drop_last());
        match document::text_of(items.last()) {
            Some(t) => head.push(t),
            None => head,
        }
    }
}

/// The members with the white space around them trimmed, without those that are empty then.
pub open spec fn cleaned(members: Seq<Seq<char>>) -> Seq<Seq<char>>
    decreases members.len(),
{
    if members.len() == 0 {
        Seq::empty()
    } else {
        let head = cleaned(members.drop_last());
        let last = text::trimmed(members.last());
        if last.len() == 0 {
            head
        } else {
            head.push(last)
        }
    }
}

/// The members other than the given one, in order.
pub open spec fn without(members: Seq<Seq<char>>, client_id: Seq<char>) -> Seq<Seq<char>>
    decreases members.len(),
{
    if members.len() == 0 {
        Seq::empty()
    } else {
        let head = without(members.drop_last(), client_id);
        if members.last() == client_id {
            head
        } else {
            head.push(members.last())
        }
    }
}

/// The members with the given one added at the end, unless it is there already.
pub open spec fn with(members: Seq<Seq<char>>, client_id: Seq<char>) -> Seq<Seq<char>> {
    if members.contains(client_id) {
        members
    } else {
        members.push(client_id)
    }
}

/// The members that a policy document lists.
pub open spec fn members_in(doc: DocView) -> Seq<Seq<char>> {
    if doc.contains_key("members"@) {
        match doc["members"@] {
            ValueView::Array(items) => texts(items),
            _ => Seq::empty(),
        }
    } else {
        Seq::empty()
    }
}

/// Whether a policy document holds the hash of a key.
pub open spec fn key_in_policy(doc: DocView) -> bool {
    text::non_empty(document::text_field(doc, "api_key_hash"@)) is Some
}

/// The policy of a room that the given document, if any, stands for.
pub open spec fn policy_of(doc: Option<DocView>, room_name: Seq<char>) -> GroupPolicyView {
    match doc {
        Some(d) => GroupPolicyView {
            room_name,
            mode: match document::text_field(d, "mode"@) {
                Some(mode) => mode,
                None => "open"@,
            },
            has_key: key_in_policy(d),
            members: members_in(d),
        },
        None => GroupPolicyView {
            room_name,
            mode: "open"@,
            has_key: false,
            members: Seq::empty(),
        },
    }
}

/// Collects the texts among the values.
fn read_texts(items: &Vec<Value>) -> (found: Vec<String>)
    ensures
        found.deep_view() == texts(document::items_view(items@)),
{
    let ghost all = document::items_view(items@);
    proof {
        document::lemma_items_view(items@);
    }
    let mut found: Vec<String> = Vec::new();
    assert(found.deep_view() =~= texts(all.take(0)));
    let mut i: usize = 0;
    while i < items.len()
        invariant
            i <= items@.len(),
            all.len() == items@.len(),
            forall|j: int| 0 <= j < items@.len() ==> #[trigger] all[j] == items@[j]@,
            found.deep_view() == texts(all.take(i as int)),
        decreases items@.len() - i,
    {
        let ghost before = found.deep_view();
        proof {
            assert(all.take(i + 1).drop_last() =~= all.take(i as int));
            assert(all.take(i + 1).last() == items@[i as int]@);
        }
        if let Value::Text(s) = &items[i] {
            found.push(s.clone());
            assert(found.deep_view() =~= before.push(s@));
        }
        i = i + 1;
    }
    assert(all.take(all.len() as int) =~= all);
    found
}

/// Reads the policy of a room from its document, if it has one.
pub fn read_group(doc: &Option<Doc>, room_name: &str) -> (policy: GroupPolicy)
    ensures
        policy.deep_view() == policy_of(doc.deep_view(), room_name@),
{
    match doc {
        Some(d) => {
            let mode = match d.text("mode") {
                Some(mode) => mode,
                None => "open".to_string(),
            };
            let has_key = text::keep_non_empty(d.text("api_key_hash")).is_some();
            let members = match d.get("members") {
                Some(Value::Array(items)) => read_texts(items),
                _ => Vec::new(),
            };
            assert(members.deep_view() =~= members_in(d@));
            GroupPolicy { room_name: room_name.to_string(), mode, has_key, members }
        },
        None => {
            let policy = GroupPolicy {
                room_name: room_name.to_string(),
                mode: "open".to_string(),
                has_key: false,
                members: Vec::new(),
            };
            assert(policy.members.deep_view() =~= Seq::<Seq<char>>::empty());
            policy
        },
    }
}

/// Trims the members and drops those that are empty then.
fn clean_members(members: &Vec<String>) -> (kept: Vec<String>)
    ensures
        kept.deep_view() == cleaned(members.deep_view()),
{
    let ghost all = members.deep_view();
    let mut kept: Vec<String> = Vec::new();
    assert(kept.deep_view() =~= cleaned(all.take(0)));
    let mut i: usize = 0;
    while i < members.len()
        invariant
            i <= members@.len(),
            all == members.deep_view(),
            kept.deep_view() == cleaned(all.take(i as int)),
        decreases members@.len() - i,
    {
        let ghost before = kept.deep_view();
        let member = text::trim(members[i].as_str());
        proof {
            assert(all.take(i + 1).drop_last() =~= all.take(i as int));
            assert(all.take(i + 1).last() == members@[i as int]@);
        }
        if !member.as_str().is_empty() {
            let ghost content = member@;
            kept.push(member);
            assert(kept.deep_view() =~= before.push(content));
        }
        i = i + 1;
    }
    assert(all.take(all.len() as int) =~= all);
    kept
}

/// The members other than the given one.
fn members_without(members: &Vec<String>, client_id: &String) -> (kept: Vec<String>)
    ensures
        kept.deep_view() == without(members.deep_view(), client_id@),
{
    let ghost all = members.deep_view();
    let mut kept: Vec<String> = Vec::new();
    assert(kept.deep_view() =~= without(all.take(0), client_id@));
    let mut i: usize = 0;
    while i < members.len()
        invariant
            i <= members@.len(),
            all == members.deep_view(),
            kept.deep_view() == without(all.take(i as int), client_id@),
        decreases members@.len() - i,
    {
        let ghost before = kept.deep_view();
        proof {
            assert(all.take(i + 1).drop_last() =~= all.take(i as int));
            assert(all.take(i + 1).last() == members@[i as int]@);
        }
        if members[i] != *client_id {
            kept.push(members[i].clone());
            assert(kept.deep_view() =~= before.push(members@[i as int]@));
        }
        i = i + 1;
    }
    assert(all.take(all.len() as int) =~= all);
    kept
}

/// The members with the given one.
fn members_with(members: Vec<String>, client_id: String) -> (all: Vec<String>)
    ensures
        all.deep_view() == with(members.deep_view(), client_id@),
{
    let ghost given = members.deep_view();
    let mut all = members;
    let mut i: usize = 0;
    while i < all.len()
        invariant
            i <= all@.len(),
            given == members.deep_view(),
            given == all.deep_view(),
            forall|j: int| 0 <= j < i ==> given[j] != client_id@,
        decreases all@.len() - i,
    {
        if all[i] == client_id {
            assert(given[i as int] == client_id@);
            return all;
        }
        i = i + 1;
    }
    let ghost content = client_id@;
    all.push(client_id);
    assert(all.deep_view() =~= given.push(content));
    all
}

/// The members as an array of texts.
pub open spec fn members_value(members: Seq<Seq<char>>) -> ValueView {
    ValueView::Array(members.map_values(|m: Seq<char>| ValueView::Text(m)))
}

/// The policy document for a mode, a key hash if there is one, and members.
pub open spec fn group_doc(
    mode: GroupMode,
    hash: Option<ValueView>,
    members: Seq<Seq<char>>,
) -> DocView {
    let doc = Map::empty().insert("mode"@, ValueView::Text(mode_text(mode))).insert(
        "members"@,
        members_value(members),
    );
    match hash {
        Some(h) => doc.insert("api_key_hash"@, h),
        None => doc,
    }
}

/// Makes the policy document.
fn make_group_doc(mode: GroupMode, hash: Option<Value>, members: &Vec<String>) -> (doc: Doc)
    ensures
        doc@ == group_doc(mode, hash.deep_view(), members.deep_view()),
{
    let mut items: Vec<Value> = Vec::new();
    let mut i: usize = 0;
    while i < members.len()
        invariant
            i <= members@.len(),
            items@.len() == i,
            forall|j: int|
                0 <= j < i ==> (#[trigger] items@[j])@ == ValueView::Text(members@[j]@),
        decreases members@.len() - i,
    {
        items.push(Value::Text(members[i].clone()));
        i = i + 1;
    }
    proof {
        document::lemma_items_view(items@);
        assert(ValueView::Array(document::items_view(items@)) == members_value(members.deep_view()))
            by {
            assert(document::items_view(items@) =~= members.deep_view().map_values(
                |m: Seq<char>| ValueView::Text(m),
            ));
        }
    }
    let mut doc = Doc::new();
    let mode_name = match mode {
        GroupMode::Open => "open",
        GroupMode::Registered => "registered",
    };
    doc.insert("mode", Value::Text(mode_name.to_string()));
    doc.insert("members", Value::Array(items));
    if let Some(h) = hash {
        doc.insert("api_key_hash", h);
    }
    doc
}

/// A command on a room's policy, waiting for the room's document or for it to be written.
pub enum GroupCommand {
    /// Waits for the document, to add a member.
    Add { room: String, client_id: String },
    /// Waits for the document, to remove a member.
    Remove { room: String, client_id: String },
    /// Waits for the document, to set the policy.
    Current {
        room: String,
        mode: GroupMode,
        api_key: Option<String>,
        wanted: Option<Vec<String>>,
    },
    /// Waits for the document, to keep the key hash that it holds.
    OldHash { room: String, mode: GroupMode, has_key: bool, members: Vec<String> },
    /// Waits for the new document to be written.
    Write { room: String },
    /// Waits for the document, to show the policy.
    Read { room: String },
}

/// The content of a [`GroupCommand`].
pub enum GroupCommandView {
    Add { room: Seq<char>, client_id: Seq<char> },
    Remove { room: Seq<char>, client_id: Seq<char> },
    Current {
        room: Seq<char>,
        mode: GroupMode,
        api_key: Option<Seq<char>>,
        wanted: Option<Seq<Seq<char>>>,
    },
    OldHash { room: Seq<char>, mode: GroupMode, has_key: bool, members: Seq<Seq<char>> },
    Write { room: Seq<char> },
    Read { room: Seq<char> },
}

impl DeepView for GroupCommand {
    type V = GroupCommandView;

    open spec fn deep_view(&self) -> GroupCommandView {
        match self {
            GroupCommand::Add { room, client_id } => GroupCommandView::Add {
                room: room@,
                client_id: client_id@,
            },
            GroupCommand::Remove { room, client_id } => GroupCommandView::Remove {
                room: room@,
                client_id: client_id@,
            },
            GroupCommand::Current { room, mode, api_key, wanted } => GroupCommandView::Current {
                room: room@,
                mode: *mode,
                api_key: api_key.deep_view(),
                wanted: wanted.deep_view(),
            },
            GroupCommand::OldHash { room, mode, has_key, members } => GroupCommandView::OldHash {
                room: room@,
                mode: *mode,
                has_key: *has_key,
                members: members.deep_view(),
            },
            GroupCommand::Write { room } => GroupCommandView::Write { room: room@ },
            GroupCommand::Read { room } => GroupCommandView::Read { room: room@ },
        }
    }
}

/// A new policy that waits for the hash of its key.
pub struct GroupKeying {
    room: String,
    mode: GroupMode,
    members: Vec<String>,
}

/// The content of a [`GroupKeying`].
pub struct GroupKeyingView {
    pub room: Seq<char>,
    pub mode: GroupMode,
    pub members: Seq<Seq<char>>,
}

impl DeepView for GroupKeying {
    type V = GroupKeyingView;

    closed spec fn deep_view(&self) -> GroupKeyingView {
        GroupKeyingView {
            room: self.room@,
            mode: self.mode,
            members: self.members.deep_view(),
        }
    }
}

/// Where a group command stands: it waits for a reply to an action or for the hash of a
/// key, or it is done, or it was refused with a message.
pub enum GroupStep {
    Do(GroupCommand, StoreAction),
    Hash(GroupKeying, String),
    Done(GroupPolicy),
    Fail(String),
}

/// The content of a [`GroupStep`].
pub enum GroupStepView {
    Do(GroupCommandView, StoreActionView),
    Hash(GroupKeyingView, Seq<char>),
    Done(GroupPolicyView),
    Fail(Seq<char>),
}

impl DeepView for GroupStep {
    type V = GroupStepView;

    open spec fn deep_view(&self) -> GroupStepView {
        match self {
            GroupStep::Do(command, action) => GroupStepView::Do(
                command.deep_view(),
                action.deep_view(),
            ),
            GroupStep::Hash(keying, key) => GroupStepView::Hash(keying.deep_view(), key@),
            GroupStep::Done(policy) => GroupStepView::Done(policy.deep_view()),
            GroupStep::Fail(message) => GroupStepView::Fail(message@),
        }
    }
}

/// The action that reads a room's document.
pub open spec fn read_room(room: Seq<char>) -> StoreActionView {
    StoreActionView::Get { collection: GROUPS_COLLECTION@, id: room }
}

/// The step that writes a room's new document.
pub open spec fn write_room(
    room: Seq<char>,
    mode: GroupMode,
    hash: Option<ValueView>,
    members: Seq<Seq<char>>,
) -> GroupStepView {
    GroupStepView::Do(
        GroupCommandView::Write { room },
        StoreActionView::Put {
            collection: GROUPS_COLLECTION@,
            id: room,
            doc: group_doc(mode, hash, members),
        },
    )
}

/// How the showing of a policy starts.
pub open spec fn group_get_start(room_name: Seq<char>) -> GroupStepView {
    let room = text::trimmed(room_name);
    if room.len() == 0 {
        GroupStepView::Fail(EMPTY_ROOM@)
    } else {
        GroupStepView::Do(GroupCommandView::Read { room }, read_room(room))
    }
}

/// How the setting of a policy starts.
pub open spec fn group_set_start(
    room_name: Seq<char>,
    mode: Seq<char>,
    api_key: Option<Seq<char>>,
    members: Option<Seq<Seq<char>>>,
) -> GroupStepView {
    let room = text::trimmed(room_name);
    if room.len() == 0 {
        GroupStepView::Fail(EMPTY_ROOM@)
    } else {
        match mode_named(mode) {
            None => GroupStepView::Fail(UNKNOWN_MODE@),
            Some(mode) => GroupStepView::Do(
                GroupCommandView::Current { room, mode, api_key, wanted: members },
                read_room(room),
            ),
        }
    }
}

/// How the adding of a member starts.
pub open spec fn group_add_start(room_name: Seq<char>, client_id: Seq<char>) -> GroupStepView {
    let client_id = text::trimmed(client_id);
    let room = text::trimmed(room_name);
    if client_id.len() == 0 {
        GroupStepView::Fail(EMPTY_CLIENT@)
    } else {
        GroupStepView::Do(GroupCommandView::Add { room, client_id }, read_room(room))
    }
}

/// How the removing of a member starts.
pub open spec fn group_remove_start(room_name: Seq<char>, client_id: Seq<char>) -> GroupStepView {
    let room = text::trimmed(room_name);
    GroupStepView::Do(
        GroupCommandView::Remove { room, client_id: text::trimmed(client_id) },
        read_room(room),
    )
}

/// The new key that is asked for: the given one, trimmed, unless nothing is left of it.
pub open spec fn new_key(api_key: Option<Seq<char>>) -> Option<Seq<char>> {
    match api_key {
        Some(key) => text::non_empty(Some(text::trimmed(key))),
        None => None,
    }
}

/// How a group command goes on after a reply.
pub open spec fn group_next(command: GroupCommandView, reply: ReplyView) -> GroupStepView {
    match command {
        GroupCommandView::Add { room, client_id } => {
            let policy = policy_of(host::doc_of(reply), room);
            group_set_start(room, policy.mode, None, Some(with(policy.members, client_id)))
        },
        GroupCommandView::Remove { room, client_id } => {
            let policy = policy_of(host::doc_of(reply), room);
            group_set_start(room, policy.mode, None, Some(without(policy.members, client_id)))
        },
        GroupCommandView::Current { room, mode, api_key, wanted } => {
            let policy = policy_of(host::doc_of(reply), room);
            let members = cleaned(
                match wanted {
                    Some(given) => given,
                    None => policy.members,
                },
            );
            match new_key(api_key) {
                Some(key) => if utf8::encode_utf8(key).len() < MIN_KEY_BYTES {
                    GroupStepView::Fail(SHORT_KEY@)
                } else {
                    GroupStepView::Hash(GroupKeyingView { room, mode, members }, key)
                },
                None => GroupStepView::Do(
                    GroupCommandView::OldHash { room, mode, has_key: policy.has_key, members },
                    read_room(room),
                ),
            }
        },
        GroupCommandView::OldHash { room, mode, has_key, members } => {
            if mode is Registered && !has_key {
                GroupStepView::Fail(KEY_NEEDED@)
            } else {
                let hash = match host::doc_of(reply) {
                    Some(doc) if doc.contains_key("api_key_hash"@) => Some(doc["api_key_hash"@]),
                    _ => None,
                };
                write_room(room, mode, hash, members)
            }
        },
        GroupCommandView::Write { room } => match reply {
            ReplyView::Failed(error) => GroupStepView::Fail(error),
            _ => GroupStepView::Do(GroupCommandView::Read { room }, read_room(room)),
        },
        GroupCommandView::Read { room } => GroupStepView::Done(
            policy_of(host::doc_of(reply), room),
        ),
    }
}

/// How the setting of a policy goes on once its key is hashed.
pub open spec fn group_keyed(keying: GroupKeyingView, hash: Seq<char>) -> GroupStepView {
    write_room(keying.room, keying.mode, Some(ValueView::Text(hash)), keying.members)
}

/// Shows a room's policy.
pub fn cloud_group_get(room_name: &str) -> (step: GroupStep)
    ensures
        step.deep_view() == group_get_start(room_name@),
{
    let room = text::trim(room_name);
    if room.as_str().is_empty() {
        return GroupStep::Fail(EMPTY_ROOM.to_string());
    }
    let action = host::get(GROUPS_COLLECTION, room.as_str());
    GroupStep::Do(GroupCommand::Read { room }, action)
}

/// Sets a room's policy. With a key, its hash is stored in place of the one that is there;
/// without one, that stays. The mode "registered" needs a key, given now or stored.
pub fn cloud_group_set(
    room_name: &str,
    mode: &str,
    api_key: Option<String>,
    members: Option<Vec<String>>,
) -> (step: GroupStep)
    ensures
        step.deep_view() == group_set_start(
            room_name@,
            mode@,
            api_key.deep_view(),
            members.deep_view(),
        ),
{
    let room = text::trim(room_name);
    if room.as_str().is_empty() {
        return GroupStep::Fail(EMPTY_ROOM.to_string());
    }
    match parse_group_mode(mode) {
        None => GroupStep::Fail(UNKNOWN_MODE.to_string()),
        Some(mode) => {
            let action = host::get(GROUPS_COLLECTION, room.as_str());
            GroupStep::Do(GroupCommand::Current { room, mode, api_key, wanted: members }, action)
        },
    }
}

/// Adds a client to a room's members.
pub fn cloud_group_add_member(room_name: &str, client_id: &str) -> (step: GroupStep)
    ensures
        step.deep_view() == group_add_start(room_name@, client_id@),
{
    let client_id = text::trim(client_id);
    if client_id.as_str().is_empty() {
        return GroupStep::Fail(EMPTY_CLIENT.to_string());
    }
    let room = text::trim(room_name);
    let action = host::get(GROUPS_COLLECTION, room.as_str());
    GroupStep::Do(GroupCommand::Add { room, client_id }, action)
}

/// Removes a client from a room's members.
pub fn cloud_group_remove_member(room_name: &str, client_id: &str) -> (step: GroupStep)
    ensures
        step.deep_view() == group_remove_start(room_name@, client_id@),
{
    let room = text::trim(room_name);
    let action = host::get(GROUPS_COLLECTION, room.as_str());
    GroupStep::Do(GroupCommand::Remove { room, client_id: text::trim(client_id) }, action)
}

impl GroupCommand {
    /// Goes on after a reply.
    pub fn next(self, reply: Reply) -> (step: GroupStep)
        ensures
            step.deep_view() == group_next(self.deep_view(), reply.deep_view()),
    {
        match self {
            GroupCommand::Add { room, client_id } => {
                let policy = read_group(&reply.into_doc(), room.as_str());
                let members = members_with(policy.members, client_id);
                cloud_group_set(room.as_str(), policy.mode.as_str(), None, Some(members))
            },
            GroupCommand::Remove { room, client_id } => {
                let policy = read_group(&reply.into_doc(), room.as_str());
                let members = members_without(&policy.members, &client_id);
                cloud_group_set(room.as_str(), policy.mode.as_str(), None, Some(members))
            },
            GroupCommand::Current { room, mode, api_key, wanted } => {
                let policy = read_group(&reply.into_doc(), room.as_str());
                let members = match wanted {
                    Some(given) => clean_members(&given),
                    None => clean_members(&policy.members),
                };
                let key = match api_key {
                    Some(key) => text::keep_non_empty(Some(text::trim(key.as_str()))),
                    None => None,
                };
                match key {
                    Some(key) => if key.as_str().as_bytes().len() < MIN_KEY_BYTES {
                        GroupStep::Fail(SHORT_KEY.to_string())
                    } else {
                        GroupStep::Hash(GroupKeying { room, mode, members }, key)
                    },
                    None => {
                        let action = host::get(GROUPS_COLLECTION, room.as_str());
                        GroupStep::Do(
                            GroupCommand::OldHash { room, mode, has_key: policy.has_key, members },
                            action,
                        )
                    },
                }
            },
            GroupCommand::OldHash { room, mode, has_key, members } => {
                if matches!(mode, GroupMode::Registered) && !has_key {
                    return GroupStep::Fail(KEY_NEEDED.to_string());
                }
                let hash = match reply.into_doc() {
                    Some(mut doc) => doc.remove("api_key_hash"),
                    None => None,
                };
                let doc = make_group_doc(mode, hash, &members);
                let action = host::put(GROUPS_COLLECTION, room.as_str(), doc);
                GroupStep::Do(GroupCommand::Write { room }, action)
            },
            GroupCommand::Write { room } => match reply {
                Reply::Failed(error) => GroupStep::Fail(error),
                _ => {
                    let action = host::get(GROUPS_COLLECTION, room.as_str());
                    GroupStep::Do(GroupCommand::Read { room }, action)
                },
            },
            GroupCommand::Read { room } => {
                GroupStep::Done(read_group(&reply.into_doc(), room.as_str()))
            },
        }
    }
}

impl GroupKeying {
    /// Goes on with the hash of the key.
    pub fn with_hash(self, hash: String) -> (step: GroupStep)
        ensures
            step.deep_view() == group_keyed(self.deep_view(), hash@),
    {
        let doc = make_group_doc(self.mode, Some(Value::Text(hash)), &self.members);
        let action = host::put(GROUPS_COLLECTION, self.room.as_str(), doc);
        GroupStep::Do(GroupCommand::Write { room: self.room }, action)
    }
}

/// The content of a policy is what its own fields hold.
pub proof fn law_policies_are_seen_whole(policy: GroupPolicy)
    ensures
        policy.deep_view().room_name == policy.room_name@,
        policy.deep_view().mode == policy.mode@,
        policy.deep_view().has_key == policy.has_key,
        policy.deep_view().members == policy.members.deep_view(),
{
}

} // verus!
