//! What holds of group policies across commands, on a store that does not fail.
use super::groups;
use super::groups::{
    GroupCommandView, GroupMode, GroupPolicyView, GroupStepView, EMPTY_CLIENT, EMPTY_ROOM,
    KEY_NEEDED, MIN_KEY_BYTES, SHORT_KEY, UNKNOWN_MODE,
};
use super::GROUPS_COLLECTION;
use crate::document::{DocView, ValueView};
use crate::host;
use crate::host::{Docs, ReplyView};
use crate::text;
use vstd::prelude::*;
use vstd::utf8;

verus! {

/// Runs a group command for at most `fuel` actions and hashings, where `hash` hashes the
/// keys, and gives the store and the step that it comes to.
pub open spec fn group_run(
    step: GroupStepView,
    docs: Docs,
    hash: spec_fn(Seq<char>) -> Seq<char>,
    fuel: nat,
) -> (Docs, GroupStepView)
    decreases fuel,
{
    match step {
        GroupStepView::Do(command, action) if fuel > 0 => {
            let (after, reply) = host::perform(docs, action);
            group_run(groups::group_next(command, reply), after, hash, (fuel - 1) as nat)
        },
        GroupStepView::Hash(keying, key) if fuel > 0 => {
            group_run(groups::group_keyed(keying, hash(key)), docs, hash, (fuel - 1) as nat)
        },
        _ => (docs, step),
    }
}

/// The policy document of a room.
pub open spec fn room_doc(docs: Docs, room: Seq<char>) -> Option<DocView> {
    host::doc_at(docs, GROUPS_COLLECTION@, room)
}

/// The policy of a room.
pub open spec fn room_policy(docs: Docs, room: Seq<char>) -> GroupPolicyView {
    groups::policy_of(room_doc(docs, room), room)
}

/// The key hash that a room's document holds, whatever value it is.
pub open spec fn room_hash(docs: Docs, room: Seq<char>) -> Option<ValueView> {
    match room_doc(docs, room) {
        Some(doc) if doc.contains_key("api_key_hash"@) => Some(doc["api_key_hash"@]),
        _ => None,
    }
}

/// The document that a request to set a policy writes, or the message that refuses it.
pub open spec fn set_answer(
    docs: Docs,
    hash: spec_fn(Seq<char>) -> Seq<char>,
    room_name: Seq<char>,
    mode: Seq<char>,
    api_key: Option<Seq<char>>,
    members: Option<Seq<Seq<char>>>,
) -> Result<DocView, Seq<char>> {
    let room = text::trimmed(room_name);
    let policy = room_policy(docs, room);
    let members = groups::cleaned(
        match members {
            Some(given) => given,
            None => policy.members,
        },
    );
    if room.len() == 0 {
        Err(EMPTY_ROOM@)
    } else if groups::mode_named(mode) is None {
        Err(UNKNOWN_MODE@)
    } else {
        let mode = groups::mode_named(mode)->0;
        match groups::new_key(api_key) {
            Some(key) => if utf8::encode_utf8(key).len() < MIN_KEY_BYTES {
                Err(SHORT_KEY@)
            } else {
                Ok(groups::group_doc(mode, Some(ValueView::Text(hash(key))), members))
            },
            None => if mode is Registered && !policy.has_key {
                Err(KEY_NEEDED@)
            } else {
                Ok(groups::group_doc(mode, room_hash(docs, room), members))
            },
        }
    }
}

/// What becomes of the store, and what is answered, when a request is refused or a room's
/// document is written.
pub open spec fn settled(
    docs: Docs,
    room: Seq<char>,
    answer: Result<DocView, Seq<char>>,
) -> (Docs, GroupStepView) {
    match answer {
        Ok(doc) => (
            docs.insert((GROUPS_COLLECTION@, room), doc),
            GroupStepView::Done(groups::policy_of(Some(doc), room)),
        ),
        Err(message) => (docs, GroupStepView::Fail(message)),
    }
}

/// Setting a policy writes the room's document and shows the policy that it stands for, or
/// is refused with a message and leaves the store as it was.
pub proof fn law_group_set(
    docs: Docs,
    hash: spec_fn(Seq<char>) -> Seq<char>,
    room_name: Seq<char>,
    mode: Seq<char>,
    api_key: Option<Seq<char>>,
    members: Option<Seq<Seq<char>>>,
)
    ensures
        group_run(groups::group_set_start(room_name, mode, api_key, members), docs, hash, 4)
            == settled(
            docs,
            text::trimmed(room_name),
            set_answer(docs, hash, room_name, mode, api_key, members),
        ),
{
    reveal_with_fuel(group_run, 5);
}

/// Showing a policy leaves the store as it was; a room without a document is open, has no
/// key and lists no members.
pub proof fn law_group_get(docs: Docs, hash: spec_fn(Seq<char>) -> Seq<char>, room_name: Seq<char>)
    ensures
        ({
            let room = text::trimmed(room_name);
            let (after, step) = group_run(groups::group_get_start(room_name), docs, hash, 1);
            &&& after == docs
            &&& room.len() == 0 ==> step == GroupStepView::Fail(EMPTY_ROOM@)
            &&& room.len() > 0 ==> step == GroupStepView::Done(room_policy(docs, room))
            &&& room_doc(docs, room) is None ==> room_policy(docs, room) == (GroupPolicyView {
                room_name: room,
                mode: "open"@,
                has_key: false,
                members: Seq::empty(),
            })
        }),
{
    reveal_with_fuel(group_run, 2);
}

/// The most actions and hashings that a group command takes yet, the one that it waits for
/// included.
pub open spec fn group_actions_left(step: GroupStepView) -> nat {
    match step {
        GroupStepView::Do(GroupCommandView::Add { room, client_id }, action) => 5,
        GroupStepView::Do(GroupCommandView::Remove { room, client_id }, action) => 5,
        GroupStepView::Do(GroupCommandView::Current { room, mode, api_key, wanted }, action) => 4,
        GroupStepView::Do(GroupCommandView::OldHash { room, mode, has_key, members }, action) => 3,
        GroupStepView::Hash(keying, key) => 3,
        GroupStepView::Do(GroupCommandView::Write { room }, action) => 2,
        GroupStepView::Do(GroupCommandView::Read { room }, action) => 1,
        GroupStepView::Done(policy) => 0,
        GroupStepView::Fail(message) => 0,
    }
}

/// Whatever the store replies and whatever the hash is, a group command comes to an end.
pub proof fn law_group_commands_end(step: GroupStepView, reply: ReplyView, hash: Seq<char>)
    ensures
        step matches GroupStepView::Do(command, action) ==> group_actions_left(
            groups::group_next(command, reply),
        ) < group_actions_left(step),
        step matches GroupStepView::Hash(keying, key) ==> group_actions_left(
            groups::group_keyed(keying, hash),
        ) < group_actions_left(step),
{
}

/// Members as this library stores them: trimmed, and none of them empty.
pub open spec fn is_clean(members: Seq<Seq<char>>) -> bool {
    forall|i: int|
        0 <= i < members.len() ==> text::is_trim(#[trigger] members[i]) && members[i].len() > 0
}

/// Cleaning gives clean members, and leaves clean members as they are.
pub proof fn law_cleaning(members: Seq<Seq<char>>)
    ensures
        is_clean(groups::cleaned(members)),
        is_clean(members) ==> groups::cleaned(members) == members,
    decreases members.len(),
{
    if members.len() > 0 {
        let head = members.drop_last();
        law_cleaning(head);
        text::law_trimming_once_is_enough(members.last());
        if is_clean(members) {
            assert(is_clean(head)) by {
                assert forall|i: int| 0 <= i < head.len() implies text::is_trim(
                    #[trigger] head[i],
                ) && head[i].len() > 0 by {
                    assert(head[i] == members[i]);
                }
            }
            text::lemma_trim_keeps(members.last());
            assert(head.push(members.last()) =~= members);
        }
    }
}

proof fn lemma_members_read_back(members: Seq<Seq<char>>)
    ensures
        groups::texts(members.map_values(|m: Seq<char>| ValueView::Text(m))) == members,
    decreases members.len(),
{
    let items = members.map_values(|m: Seq<char>| ValueView::Text(m));
    if members.len() > 0 {
        lemma_members_read_back(members.drop_last());
        assert(items.drop_last() =~= members.drop_last().map_values(
            |m: Seq<char>| ValueView::Text(m),
        ));
        assert(groups::texts(items) =~= members);
    } else {
        assert(groups::texts(items) =~= members);
    }
}

pub(crate) proof fn lemma_policy_field_names()
    ensures
        "mode"@ != "members"@,
        "mode"@ != "api_key_hash"@,
        "members"@ != "api_key_hash"@,
{
    reveal_strlit("mode");
    reveal_strlit("members");
    reveal_strlit("api_key_hash");
    assert("mode"@.len() == 4);
    assert("members"@.len() == 7);
    assert("api_key_hash"@.len() == 12);
}

/// A stored policy reads back as it was written.
pub proof fn law_policy_reads_back(
    room: Seq<char>,
    mode: GroupMode,
    hash: Option<ValueView>,
    members: Seq<Seq<char>>,
)
    ensures
        groups::policy_of(Some(groups::group_doc(mode, hash, members)), room) == (GroupPolicyView {
            room_name: room,
            mode: groups::mode_text(mode),
            has_key: hash matches Some(ValueView::Text(h)) && h.len() > 0,
            members,
        }),
        hash matches Some(h) ==> groups::group_doc(mode, hash, members)["api_key_hash"@] == h,
        groups::group_doc(mode, hash, members).contains_key("api_key_hash"@) == (hash is Some),
{
    lemma_policy_field_names();
    lemma_members_read_back(members);
}

/// The stored name of a mode names that mode.
pub proof fn law_mode_names(mode: GroupMode)
    ensures
        groups::mode_named(groups::mode_text(mode)) == Some(mode),
{
    reveal_strlit("open");
    reveal_strlit("registered");
    text::lemma_trim_keeps(groups::mode_text(mode));
}

/// A room's policy as this library stores it: with one of the two modes, with a key where
/// the mode is "registered", and with clean members.
pub open spec fn is_sound(policy: GroupPolicyView) -> bool {
    &&& exists|mode: GroupMode| policy.mode == #[trigger] groups::mode_text(mode)
    &&& policy.mode == "registered"@ ==> policy.has_key
    &&& is_clean(policy.members)
}

/// A request to set a policy that is not refused leaves a sound policy behind, whatever the
/// room had before: a "registered" room always has a key. It takes a key whose hash is not
/// empty, if it takes one.
pub proof fn law_policies_are_sound(
    docs: Docs,
    hash: spec_fn(Seq<char>) -> Seq<char>,
    room_name: Seq<char>,
    mode: Seq<char>,
    api_key: Option<Seq<char>>,
    members: Option<Seq<Seq<char>>>,
)
    requires
        groups::new_key(api_key) matches Some(key) ==> hash(key).len() > 0,
    ensures
        set_answer(docs, hash, room_name, mode, api_key, members) matches Ok(doc) ==> is_sound(
            groups::policy_of(Some(doc), text::trimmed(room_name)),
        ),
{
    let room = text::trimmed(room_name);
    let given = match members {
        Some(given) => given,
        None => room_policy(docs, room).members,
    };
    law_cleaning(given);
    if let Some(m) = groups::mode_named(mode) {
        if let Some(key) = groups::new_key(api_key) {
            law_policy_reads_back(
                room,
                m,
                Some(ValueView::Text(hash(key))),
                groups::cleaned(given),
            );
        } else {
            law_policy_reads_back(room, m, room_hash(docs, room), groups::cleaned(given));
        }
        assert(groups::mode_text(m) == "registered"@ ==> m is Registered) by {
            reveal_strlit("open");
            reveal_strlit("registered");
            assert("open"@.len() == 4);
        }
    }
}

/// Without a new key the stored hash stays as it is, also when the mode changes; without
/// new members a sound room keeps its members.
pub proof fn law_omitted_parts_stay(
    docs: Docs,
    hash: spec_fn(Seq<char>) -> Seq<char>,
    room_name: Seq<char>,
    mode: Seq<char>,
    api_key: Option<Seq<char>>,
    members: Option<Seq<Seq<char>>>,
)
    ensures
        ({
            let room = text::trimmed(room_name);
            let before = room_policy(docs, room);
            set_answer(docs, hash, room_name, mode, api_key, members) matches Ok(doc) ==> {
                let after = docs.insert((GROUPS_COLLECTION@, room), doc);
                &&& groups::new_key(api_key) is None ==> room_hash(after, room) == room_hash(
                    docs,
                    room,
                )
                &&& groups::new_key(api_key) is None ==> room_policy(after, room).has_key
                    == before.has_key
                &&& members is None && is_clean(before.members) ==> room_policy(
                    after,
                    room,
                ).members == before.members
            }
        }),
{
    let room = text::trimmed(room_name);
    let before = room_policy(docs, room);
    let given = match members {
        Some(given) => given,
        None => before.members,
    };
    law_cleaning(given);
    if let Some(m) = groups::mode_named(mode) {
        if let Some(key) = groups::new_key(api_key) {
            law_policy_reads_back(
                room,
                m,
                Some(ValueView::Text(hash(key))),
                groups::cleaned(given),
            );
        } else {
            law_policy_reads_back(room, m, room_hash(docs, room), groups::cleaned(given));
        }
    }
}

/// With a new key the room's document holds the hash of the trimmed key, as a text.
pub proof fn law_only_the_hash_is_stored(
    docs: Docs,
    hash: spec_fn(Seq<char>) -> Seq<char>,
    room_name: Seq<char>,
    mode: Seq<char>,
    api_key: Option<Seq<char>>,
    members: Option<Seq<Seq<char>>>,
)
    ensures
        set_answer(docs, hash, room_name, mode, api_key, members) matches Ok(doc) ==> (
        groups::new_key(api_key) matches Some(key) ==> {
            &&& doc.dom() == set!["mode"@, "members"@, "api_key_hash"@]
            &&& doc["api_key_hash"@] == ValueView::Text(hash(key))
            &&& doc["mode"@] == ValueView::Text(groups::mode_text(groups::mode_named(mode)->0))
        }),
{
    lemma_policy_field_names();
    if let Ok(doc) = set_answer(docs, hash, room_name, mode, api_key, members) {
        if groups::new_key(api_key) is Some {
            assert(doc.dom() =~= set!["mode"@, "members"@, "api_key_hash"@]);
        }
    }
}

/// Setting a policy once more, with the same arguments, changes nothing and is answered alike,
/// whatever the room had before and whether or not the request is refused.
pub proof fn law_setting_twice(
    docs: Docs,
    hash: spec_fn(Seq<char>) -> Seq<char>,
    room_name: Seq<char>,
    mode: Seq<char>,
    api_key: Option<Seq<char>>,
    members: Option<Seq<Seq<char>>>,
)
    ensures
        ({
            let start = groups::group_set_start(room_name, mode, api_key, members);
            let (after, step) = group_run(start, docs, hash, 4);
            group_run(start, after, hash, 4) == (after, step)
        }),
{
    let room = text::trimmed(room_name);
    let row = (GROUPS_COLLECTION@, room);
    law_group_set(docs, hash, room_name, mode, api_key, members);
    if let Ok(doc) = set_answer(docs, hash, room_name, mode, api_key, members) {
        let m = groups::mode_named(mode)->0;
        let after = docs.insert(row, doc);
        let given = match members {
            Some(given) => given,
            None => room_policy(docs, room).members,
        };
        let kept = groups::cleaned(given);
        law_cleaning(given);
        law_cleaning(kept);
        if let Some(key) = groups::new_key(api_key) {
            law_policy_reads_back(room, m, Some(ValueView::Text(hash(key))), kept);
        } else {
            law_policy_reads_back(room, m, room_hash(docs, room), kept);
            law_omitted_parts_stay(docs, hash, room_name, mode, api_key, members);
        }
        law_group_set(after, hash, room_name, mode, api_key, members);
        assert(set_answer(after, hash, room_name, mode, api_key, members) == Ok::<
            DocView,
            Seq<char>,
        >(doc));
        assert(after.insert(row, doc) =~= after);
    }
}

/// A key that a room takes: long enough once it is trimmed.
pub open spec fn is_taken(key: Seq<char>) -> bool {
    groups::new_key(Some(key)) matches Some(k) && utf8::encode_utf8(k).len() >= MIN_KEY_BYTES
}

/// Nothing of a new key is shown, and nothing but its hash is stored: the same request with two
/// keys is answered alike, and the two stores differ at most in the hash that the room's
/// document holds. It takes two keys whose hashes are not empty.
pub proof fn law_only_the_hash_tells_keys_apart(
    docs: Docs,
    hash: spec_fn(Seq<char>) -> Seq<char>,
    room_name: Seq<char>,
    mode: Seq<char>,
    key: Seq<char>,
    other_key: Seq<char>,
    members: Option<Seq<Seq<char>>>,
)
    requires
        is_taken(key),
        is_taken(other_key),
        hash(text::trimmed(key)).len() > 0,
        hash(text::trimmed(other_key)).len() > 0,
    ensures
        ({
            let row = (GROUPS_COLLECTION@, text::trimmed(room_name));
            let (after, step) = group_run(
                groups::group_set_start(room_name, mode, Some(key), members),
                docs,
                hash,
                4,
            );
            let (other_after, other_step) = group_run(
                groups::group_set_start(room_name, mode, Some(other_key), members),
                docs,
                hash,
                4,
            );
            &&& step == other_step
            &&& after.dom() == other_after.dom()
            &&& after.remove(row) == other_after.remove(row)
            &&& after.contains_key(row) ==> after[row].remove("api_key_hash"@)
                == other_after[row].remove("api_key_hash"@)
        }),
{
    let room = text::trimmed(room_name);
    let row = (GROUPS_COLLECTION@, room);
    law_group_set(docs, hash, room_name, mode, Some(key), members);
    law_group_set(docs, hash, room_name, mode, Some(other_key), members);
    if room.len() > 0 {
        if let Some(m) = groups::mode_named(mode) {
            let kept = groups::cleaned(
                match members {
                    Some(given) => given,
                    None => room_policy(docs, room).members,
                },
            );
            let stored = Some(ValueView::Text(hash(text::trimmed(key))));
            let other_stored = Some(ValueView::Text(hash(text::trimmed(other_key))));
            law_policy_reads_back(room, m, stored, kept);
            law_policy_reads_back(room, m, other_stored, kept);
            let doc = groups::group_doc(m, stored, kept);
            let other_doc = groups::group_doc(m, other_stored, kept);
            assert(docs.insert(row, doc).dom() =~= docs.insert(row, other_doc).dom());
            assert(docs.insert(row, doc).remove(row) =~= docs.insert(row, other_doc).remove(row));
            assert(doc.remove("api_key_hash"@) =~= other_doc.remove("api_key_hash"@));
        }
    }
}

/// Adding a member sets the policy with that member and with everything else kept.
pub proof fn law_group_add_member(
    docs: Docs,
    hash: spec_fn(Seq<char>) -> Seq<char>,
    room_name: Seq<char>,
    client_id: Seq<char>,
)
    ensures
        ({
            let room = text::trimmed(room_name);
            let client = text::trimmed(client_id);
            let policy = room_policy(docs, room);
            group_run(groups::group_add_start(room_name, client_id), docs, hash, 5) == if client.len()
                == 0 {
                (docs, GroupStepView::Fail(EMPTY_CLIENT@))
            } else {
                settled(
                    docs,
                    room,
                    set_answer(
                        docs,
                        hash,
                        room,
                        policy.mode,
                        None,
                        Some(groups::with(policy.members, client)),
                    ),
                )
            }
        }),
{
    let room = text::trimmed(room_name);
    let client = text::trimmed(client_id);
    let policy = room_policy(docs, room);
    text::law_trimming_once_is_enough(room_name);
    law_group_set(
        docs,
        hash,
        room,
        policy.mode,
        None,
        Some(groups::with(policy.members, client)),
    );
    reveal_with_fuel(group_run, 2);
}

/// Removing a member sets the policy without that member and with everything else kept.
pub proof fn law_group_remove_member(
    docs: Docs,
    hash: spec_fn(Seq<char>) -> Seq<char>,
    room_name: Seq<char>,
    client_id: Seq<char>,
)
    ensures
        ({
            let room = text::trimmed(room_name);
            let policy = room_policy(docs, room);
            group_run(groups::group_remove_start(room_name, client_id), docs, hash, 5) == settled(
                docs,
                room,
                set_answer(
                    docs,
                    hash,
                    room,
                    policy.mode,
                    None,
                    Some(groups::without(policy.members, text::trimmed(client_id))),
                ),
            )
        }),
{
    let room = text::trimmed(room_name);
    let policy = room_policy(docs, room);
    text::law_trimming_once_is_enough(room_name);
    law_group_set(
        docs,
        hash,
        room,
        policy.mode,
        None,
        Some(groups::without(policy.members, text::trimmed(client_id))),
    );
    reveal_with_fuel(group_run, 2);
}

/// Taking a member out leaves exactly the other members, in their order.
pub proof fn law_without(members: Seq<Seq<char>>, client_id: Seq<char>)
    ensures
        !groups::without(members, client_id).contains(client_id),
        forall|m: Seq<char>|
            m != client_id ==> (#[trigger] groups::without(members, client_id).contains(m)
                == members.contains(m)),
        !members.contains(client_id) ==> groups::without(members, client_id) == members,
        is_clean(members) ==> is_clean(groups::without(members, client_id)),
        groups::without(members.push(client_id), client_id) == groups::without(members, client_id),
    decreases members.len(),
{
    assert(members.push(client_id).drop_last() =~= members);
    if members.len() > 0 {
        let head = members.drop_last();
        let last = members.last();
        let kept = groups::without(head, client_id);
        law_without(head, client_id);
        assert(head.push(last) =~= members);
        assert forall|m: Seq<char>| members.contains(m) == (head.contains(m) || m == last) by {
            if members.contains(m) {
                let i = choose|i: int| 0 <= i < members.len() && members[i] == m;
                if i < head.len() {
                    assert(head[i] == m);
                }
            }
            if head.contains(m) {
                let i = choose|i: int| 0 <= i < head.len() && head[i] == m;
                assert(members[i] == m);
            }
            if m == last {
                assert(members[members.len() - 1] == m);
            }
        }
        if last != client_id {
            let all = kept.push(last);
            assert forall|m: Seq<char>| all.contains(m) == (kept.contains(m) || m == last) by {
                if kept.contains(m) {
                    let i = choose|i: int| 0 <= i < kept.len() && kept[i] == m;
                    assert(all[i] == m);
                }
                if m == last {
                    assert(all[kept.len() as int] == m);
                }
            }
        }
        if is_clean(members) {
            assert(is_clean(head)) by {
                assert forall|i: int| 0 <= i < head.len() implies text::is_trim(
                    #[trigger] head[i],
                ) && head[i].len() > 0 by {
                    assert(head[i] == members[i]);
                }
            }
        }
    }
}

proof fn lemma_cleaning_keeps(members: Seq<Seq<char>>, client: Seq<char>)
    requires
        members.contains(client),
        text::is_trim(client),
        client.len() > 0,
    ensures
        groups::cleaned(members).contains(client),
    decreases members.len(),
{
    let head = members.drop_last();
    let cleaned_head = groups::cleaned(head);
    let all = groups::cleaned(members);
    if members.last() == client {
        text::lemma_trim_keeps(client);
        assert(all[cleaned_head.len() as int] == client);
    } else {
        let i = choose|i: int| 0 <= i < members.len() && members[i] == client;
        assert(head[i] == client);
        lemma_cleaning_keeps(head, client);
        let j = choose|j: int| 0 <= j < cleaned_head.len() && cleaned_head[j] == client;
        assert(all[j] == client);
    }
}

/// Adding the same client once more changes nothing and is answered alike, whatever the room had
/// before and whether or not the adding is refused.
pub proof fn law_adding_twice(
    docs: Docs,
    hash: spec_fn(Seq<char>) -> Seq<char>,
    room_name: Seq<char>,
    client_id: Seq<char>,
)
    ensures
        ({
            let start = groups::group_add_start(room_name, client_id);
            let (after, step) = group_run(start, docs, hash, 5);
            group_run(start, after, hash, 5) == (after, step)
        }),
{
    let room = text::trimmed(room_name);
    let row = (GROUPS_COLLECTION@, room);
    let client = text::trimmed(client_id);
    let before = room_policy(docs, room);
    let members = groups::with(before.members, client);
    text::law_trimming_once_is_enough(room_name);
    text::law_trimming_once_is_enough(client_id);
    law_group_add_member(docs, hash, room_name, client_id);
    if client.len() > 0 {
        if let Ok(doc) = set_answer(docs, hash, room, before.mode, None, Some(members)) {
            let m = groups::mode_named(before.mode)->0;
            let kept = groups::cleaned(members);
            let after = docs.insert(row, doc);
            assert(members.contains(client)) by {
                if !before.members.contains(client) {
                    assert(members[before.members.len() as int] == client);
                }
            }
            lemma_cleaning_keeps(members, client);
            law_cleaning(members);
            law_cleaning(kept);
            law_mode_names(m);
            law_policy_reads_back(room, m, room_hash(docs, room), kept);
            law_omitted_parts_stay(docs, hash, room, before.mode, None, Some(members));
            let there = room_policy(after, room);
            assert(groups::with(there.members, client) == kept);
            law_group_add_member(after, hash, room_name, client_id);
            assert(set_answer(after, hash, room, there.mode, None, Some(kept)) == Ok::<
                DocView,
                Seq<char>,
            >(doc));
            assert(after.insert(row, doc) =~= after);
        }
    }
}

/// A sound room takes every member whose id is not blank. The list is then what it was, with
/// the client at its end unless it was listed already; mode and key stay, and no other document
/// changes.
pub proof fn law_added_member_is_listed(
    docs: Docs,
    hash: spec_fn(Seq<char>) -> Seq<char>,
    room_name: Seq<char>,
    client_id: Seq<char>,
)
    requires
        text::trimmed(room_name).len() > 0,
        text::trimmed(client_id).len() > 0,
        is_sound(room_policy(docs, text::trimmed(room_name))),
    ensures
        ({
            let room = text::trimmed(room_name);
            let client = text::trimmed(client_id);
            let before = room_policy(docs, room);
            let (after, step) = group_run(
                groups::group_add_start(room_name, client_id),
                docs,
                hash,
                5,
            );
            let policy = room_policy(after, room);
            &&& step == GroupStepView::Done(policy)
            &&& policy == (GroupPolicyView {
                members: groups::with(before.members, client),
                ..before
            })
            &&& policy.members.contains(client)
            &&& is_sound(policy)
            &&& after.remove((GROUPS_COLLECTION@, room)) == docs.remove((GROUPS_COLLECTION@, room))
        }),
{
    let room = text::trimmed(room_name);
    let client = text::trimmed(client_id);
    let before = room_policy(docs, room);
    let members = groups::with(before.members, client);
    let mode = choose|mode: GroupMode| before.mode == groups::mode_text(mode);
    text::law_trimming_once_is_enough(room_name);
    text::law_trimming_once_is_enough(client_id);
    law_mode_names(mode);
    assert(members.contains(client)) by {
        if !before.members.contains(client) {
            assert(members[before.members.len() as int] == client);
        }
    }
    assert(is_clean(members));
    law_cleaning(members);
    law_group_add_member(docs, hash, room_name, client_id);
    law_policy_reads_back(room, mode, room_hash(docs, room), members);
    let doc = groups::group_doc(mode, room_hash(docs, room), members);
    let after = docs.insert((GROUPS_COLLECTION@, room), doc);
    assert(set_answer(docs, hash, room, before.mode, None, Some(members)) == Ok::<
        DocView,
        Seq<char>,
    >(doc));
    assert(after.remove((GROUPS_COLLECTION@, room)) =~= docs.remove((GROUPS_COLLECTION@, room)));
}

/// From a sound room every client can be removed. The client is not listed then, every other
/// member is listed as before, mode and key stay, and no other document changes.
pub proof fn law_removed_member_is_gone(
    docs: Docs,
    hash: spec_fn(Seq<char>) -> Seq<char>,
    room_name: Seq<char>,
    client_id: Seq<char>,
)
    requires
        text::trimmed(room_name).len() > 0,
        is_sound(room_policy(docs, text::trimmed(room_name))),
    ensures
        ({
            let room = text::trimmed(room_name);
            let client = text::trimmed(client_id);
            let before = room_policy(docs, room);
            let (after, step) = group_run(
                groups::group_remove_start(room_name, client_id),
                docs,
                hash,
                5,
            );
            let policy = room_policy(after, room);
            &&& step == GroupStepView::Done(policy)
            &&& policy == (GroupPolicyView {
                members: groups::without(before.members, client),
                ..before
            })
            &&& !policy.members.contains(client)
            &&& forall|m: Seq<char>|
                m != client ==> (#[trigger] policy.members.contains(m) == before.members.contains(
                    m,
                ))
            &&& is_sound(policy)
            &&& after.remove((GROUPS_COLLECTION@, room)) == docs.remove((GROUPS_COLLECTION@, room))
        }),
{
    let room = text::trimmed(room_name);
    let client = text::trimmed(client_id);
    let before = room_policy(docs, room);
    let members = groups::without(before.members, client);
    let mode = choose|mode: GroupMode| before.mode == groups::mode_text(mode);
    text::law_trimming_once_is_enough(room_name);
    law_mode_names(mode);
    law_without(before.members, client);
    law_cleaning(members);
    law_group_remove_member(docs, hash, room_name, client_id);
    law_policy_reads_back(room, mode, room_hash(docs, room), members);
    let doc = groups::group_doc(mode, room_hash(docs, room), members);
    let after = docs.insert((GROUPS_COLLECTION@, room), doc);
    assert(set_answer(docs, hash, room, before.mode, None, Some(members)) == Ok::<
        DocView,
        Seq<char>,
    >(doc));
    assert(after.remove((GROUPS_COLLECTION@, room)) =~= docs.remove((GROUPS_COLLECTION@, room)));
}

/// Removing a client that was just added to a sound room brings back the policy from before,
/// if the client was not listed then, and answers with it; the key hash is the one from before.
pub proof fn law_remove_undoes_add(
    docs: Docs,
    hash: spec_fn(Seq<char>) -> Seq<char>,
    room_name: Seq<char>,
    client_id: Seq<char>,
)
    requires
        text::trimmed(room_name).len() > 0,
        text::trimmed(client_id).len() > 0,
        is_sound(room_policy(docs, text::trimmed(room_name))),
        !room_policy(docs, text::trimmed(room_name)).members.contains(text::trimmed(client_id)),
    ensures
        ({
            let room = text::trimmed(room_name);
            let added = group_run(groups::group_add_start(room_name, client_id), docs, hash, 5).0;
            let (removed, step) = group_run(
                groups::group_remove_start(room_name, client_id),
                added,
                hash,
                5,
            );
            &&& room_policy(removed, room) == room_policy(docs, room)
            &&& room_hash(removed, room) == room_hash(docs, room)
            &&& step == GroupStepView::Done(room_policy(docs, room))
        }),
{
    let room = text::trimmed(room_name);
    let client = text::trimmed(client_id);
    let added = group_run(groups::group_add_start(room_name, client_id), docs, hash, 5).0;
    law_added_member_is_listed(docs, hash, room_name, client_id);
    law_removed_member_is_gone(added, hash, room_name, client_id);
    law_without(room_policy(docs, room).members, client);
    let before = room_policy(docs, room);
    let with = Some(groups::with(before.members, client));
    let there = room_policy(added, room);
    let without = Some(groups::without(there.members, client));
    text::law_trimming_once_is_enough(room_name);
    law_group_add_member(docs, hash, room_name, client_id);
    law_omitted_parts_stay(docs, hash, room, before.mode, None, with);
    law_group_remove_member(added, hash, room_name, client_id);
    law_omitted_parts_stay(added, hash, room, there.mode, None, without);
}

/// A policy document as the group commands write it.
pub open spec fn row_of(
    mode: GroupMode,
    hash: Option<Seq<char>>,
    members: Seq<Seq<char>>,
) -> DocView {
    groups::group_doc(
        mode,
        match hash {
            Some(h) => Some(ValueView::Text(h)),
            None => None,
        },
        members,
    )
}

/// A sound policy document: one of the two modes, a key hash that is a text and not empty if
/// there is one, as there is where the mode is "registered", clean members, and nothing else.
pub open spec fn is_sound_row(doc: DocView) -> bool {
    exists|mode: GroupMode, hash: Option<Seq<char>>, members: Seq<Seq<char>>|
        {
            &&& doc == #[trigger] row_of(mode, hash, members)
            &&& hash matches Some(h) ==> h.len() > 0
            &&& mode is Registered ==> hash is Some
            &&& is_clean(members)
        }
}

/// A store whose policy documents are all sound, and each of them under the trimmed name of a
/// room.
pub open spec fn is_sound_store(docs: Docs) -> bool {
    forall|room: Seq<char>| #[trigger]
        docs.contains_key((GROUPS_COLLECTION@, room)) ==> {
            &&& room.len() > 0
            &&& text::is_trim(room)
            &&& is_sound_row(docs[(GROUPS_COLLECTION@, room)])
        }
}

/// The policy of every room of a sound store is sound; a store without policy documents is
/// sound.
pub proof fn law_sound_stores_show_sound_policies(docs: Docs, room: Seq<char>)
    ensures
        is_sound_store(docs) ==> is_sound(room_policy(docs, room)),
        (forall|r: Seq<char>| !#[trigger] docs.contains_key((GROUPS_COLLECTION@, r)))
            ==> is_sound_store(docs),
{
    assert(groups::mode_text(GroupMode::Open) == "open"@);
    assert("open"@ != "registered"@) by {
        reveal_strlit("open");
        reveal_strlit("registered");
        assert("open"@.len() != "registered"@.len());
    }
    if is_sound_store(docs) && docs.contains_key((GROUPS_COLLECTION@, room)) {
        let doc = docs[(GROUPS_COLLECTION@, room)];
        let (mode, hash, members) = choose|
            mode: GroupMode,
            hash: Option<Seq<char>>,
            members: Seq<Seq<char>>,
        |
            {
                &&& doc == #[trigger] row_of(mode, hash, members)
                &&& hash matches Some(h) ==> h.len() > 0
                &&& mode is Registered ==> hash is Some
                &&& is_clean(members)
            };
        let stored = match hash {
            Some(h) => Some(ValueView::Text(h)),
            None => None,
        };
        law_policy_reads_back(room, mode, stored, members);
    }
}

proof fn lemma_set_keeps_store_sound(
    docs: Docs,
    hash: spec_fn(Seq<char>) -> Seq<char>,
    room_name: Seq<char>,
    mode: Seq<char>,
    api_key: Option<Seq<char>>,
    members: Option<Seq<Seq<char>>>,
)
    requires
        groups::new_key(api_key) matches Some(key) ==> hash(key).len() > 0,
        is_sound_store(docs),
    ensures
        is_sound_store(
            settled(
                docs,
                text::trimmed(room_name),
                set_answer(docs, hash, room_name, mode, api_key, members),
            ).0,
        ),
{
    let room = text::trimmed(room_name);
    let row = (GROUPS_COLLECTION@, room);
    if let Ok(doc) = set_answer(docs, hash, room_name, mode, api_key, members) {
        let m = groups::mode_named(mode)->0;
        let given = match members {
            Some(given) => given,
            None => room_policy(docs, room).members,
        };
        let kept = groups::cleaned(given);
        law_cleaning(given);
        text::law_trimming_once_is_enough(room_name);
        assert(is_sound_row(doc)) by {
            if let Some(key) = groups::new_key(api_key) {
                assert(doc == row_of(m, Some(hash(key)), kept));
            } else if docs.contains_key(row) {
                let (old_mode, old_hash, old_members) = choose|
                    mode: GroupMode,
                    hash: Option<Seq<char>>,
                    members: Seq<Seq<char>>,
                |
                    {
                        &&& docs[row] == #[trigger] row_of(mode, hash, members)
                        &&& hash matches Some(h) ==> h.len() > 0
                        &&& mode is Registered ==> hash is Some
                        &&& is_clean(members)
                    };
                let stored = match old_hash {
                    Some(h) => Some(ValueView::Text(h)),
                    None => None,
                };
                law_policy_reads_back(room, old_mode, stored, old_members);
                assert(room_hash(docs, room) == stored);
                assert(doc == row_of(m, old_hash, kept));
            } else {
                assert(doc == row_of(m, None, kept));
            }
        }
        let after = docs.insert(row, doc);
        assert forall|r: Seq<char>| #[trigger]
            after.contains_key((GROUPS_COLLECTION@, r)) implies {
            &&& r.len() > 0
            &&& text::is_trim(r)
            &&& is_sound_row(after[(GROUPS_COLLECTION@, r)])
        } by {
            if r != room {
                assert(docs.contains_key((GROUPS_COLLECTION@, r)));
            }
        }
    }
}

/// Whatever is requested, setting a policy, adding a member, removing one and showing a policy
/// keep a sound store sound. Setting takes a key whose hash is not empty, if it takes one.
pub proof fn law_stores_stay_sound(
    docs: Docs,
    hash: spec_fn(Seq<char>) -> Seq<char>,
    room_name: Seq<char>,
    mode: Seq<char>,
    api_key: Option<Seq<char>>,
    members: Option<Seq<Seq<char>>>,
    client_id: Seq<char>,
)
    requires
        groups::new_key(api_key) matches Some(key) ==> hash(key).len() > 0,
        is_sound_store(docs),
    ensures
        is_sound_store(
            group_run(groups::group_set_start(room_name, mode, api_key, members), docs, hash, 4).0,
        ),
        is_sound_store(
            group_run(groups::group_add_start(room_name, client_id), docs, hash, 5).0,
        ),
        is_sound_store(
            group_run(groups::group_remove_start(room_name, client_id), docs, hash, 5).0,
        ),
        is_sound_store(group_run(groups::group_get_start(room_name), docs, hash, 1).0),
{
    let room = text::trimmed(room_name);
    let client = text::trimmed(client_id);
    let policy = room_policy(docs, room);
    let with = Some(groups::with(policy.members, client));
    let without = Some(groups::without(policy.members, client));
    text::law_trimming_once_is_enough(room_name);
    law_group_set(docs, hash, room_name, mode, api_key, members);
    lemma_set_keeps_store_sound(docs, hash, room_name, mode, api_key, members);
    law_group_add_member(docs, hash, room_name, client_id);
    lemma_set_keeps_store_sound(docs, hash, room, policy.mode, None, with);
    law_group_remove_member(docs, hash, room_name, client_id);
    lemma_set_keeps_store_sound(docs, hash, room, policy.mode, None, without);
    law_group_get(docs, hash, room_name);
}

} // verus!
