//! What the group commands come to, in terms of their arguments and of the room's document.
use super::group_laws;
use super::groups;
use super::groups::{GroupCommandView, GroupMode, GroupPolicyView, GroupStepView};
use crate::document::{DocView, ValueView};
use crate::host::{Docs, ReplyView};
use crate::text;
use vstd::prelude::*;
use vstd::utf8;

verus! {

/// Runs the setting of a policy on a store.
pub open spec fn run_set(
    docs: Docs,
    hash: spec_fn(Seq<char>) -> Seq<char>,
    room_name: Seq<char>,
    mode: Seq<char>,
    api_key: Option<Seq<char>>,
    members: Option<Seq<Seq<char>>>,
) -> (Docs, GroupStepView) {
    group_laws::group_run(
        groups::group_set_start(room_name, mode, api_key, members),
        docs,
        hash,
        4,
    )
}

/// A text names the mode "open", or "registered", exactly where it consists of the letters of
/// that name, each of them small or capital, once the white space around it is trimmed.
pub proof fn law_modes_are_named_in_any_case(name: Seq<char>)
    ensures
        ({
            let t = text::trimmed(name);
            groups::mode_named(name) == Some(GroupMode::Open) <==> {
                &&& t.len() == 4
                &&& t[0] == 'o' || t[0] == 'O'
                &&& t[1] == 'p' || t[1] == 'P'
                &&& t[2] == 'e' || t[2] == 'E'
                &&& t[3] == 'n' || t[3] == 'N'
            }
        }),
        ({
            let t = text::trimmed(name);
            groups::mode_named(name) == Some(GroupMode::Registered) <==> {
                &&& t.len() == 10
                &&& t[0] == 'r' || t[0] == 'R'
                &&& t[1] == 'e' || t[1] == 'E'
                &&& t[2] == 'g' || t[2] == 'G'
                &&& t[3] == 'i' || t[3] == 'I'
                &&& t[4] == 's' || t[4] == 'S'
                &&& t[5] == 't' || t[5] == 'T'
                &&& t[6] == 'e' || t[6] == 'E'
                &&& t[7] == 'r' || t[7] == 'R'
                &&& t[8] == 'e' || t[8] == 'E'
                &&& t[9] == 'd' || t[9] == 'D'
            }
        }),
{
    reveal_strlit("open");
    reveal_strlit("registered");
    let t = text::trimmed(name);
    let open = "open"@;
    let registered = "registered"@;
    text::law_case_is_that_of_ascii_letters(t, open);
    text::law_case_is_that_of_ascii_letters(t, registered);
    if text::same_but_for_case(t, open) {
        assert forall|i: int| 0 <= i < 4 implies #[trigger] t[i] == open[i] || t[i] as int + 32
            == open[i] as int by {}
    }
    if text::same_but_for_case(t, registered) {
        assert forall|i: int| 0 <= i < 10 implies #[trigger] t[i] == registered[i] || t[i] as int
            + 32 == registered[i] as int by {}
    }
}

proof fn lemma_cleaned(members: Seq<Seq<char>>)
    ensures
        groups::cleaned(members) == members.map_values(|m: Seq<char>| text::trimmed(m)).filter(
            |m: Seq<char>| m.len() > 0,
        ),
    decreases members.len(),
{
    reveal(Seq::filter);
    let all = members.map_values(|m: Seq<char>| text::trimmed(m));
    if members.len() > 0 {
        let head = members.drop_last();
        lemma_cleaned(head);
        assert(all.drop_last() =~= head.map_values(|m: Seq<char>| text::trimmed(m)));
    } else {
        assert(all =~= Seq::empty());
    }
}

proof fn lemma_texts(items: Seq<ValueView>)
    ensures
        groups::texts(items) == items.filter_map(
            |v: ValueView|
                if v is Text {
                    Some(v->Text_0)
                } else {
                    None
                },
        ),
    decreases items.len(),
{
    if items.len() > 0 {
        lemma_texts(items.drop_last());
        let head = groups::texts(items.drop_last());
        if items.last() is Text {
            assert(head.push(items.last()->Text_0) =~= head + seq![items.last()->Text_0]);
        }
    }
}

proof fn lemma_without(members: Seq<Seq<char>>, client: Seq<char>)
    ensures
        groups::without(members, client) == members.filter(|m: Seq<char>| m != client),
    decreases members.len(),
{
    reveal(Seq::filter);
    if members.len() > 0 {
        lemma_without(members.drop_last(), client);
    } else {
        assert(members =~= Seq::empty());
    }
}

/// Setting a policy, over its whole course, by the room's document from before and what is
/// given.
///
/// It is refused, with nothing changed, for a blank room name, then for an unknown mode, then for
/// a key of fewer than sixteen bytes once trimmed, then for the mode "registered" where neither a
/// key is given nor the document holds a hash that is a text and not empty.
///
/// Otherwise the room's document, and no other, becomes: the mode by its name; as members exactly
/// the given ones, whatever was listed before and whether or not a key is given, or the texts
/// listed before where none are given, trimmed and without the blank ones, in order; the hash of
/// the trimmed key, or where none is given the one from before, as it was; and nothing else. The
/// answer shows just that.
pub proof fn law_policy_is_set_as_requested(
    docs: Docs,
    hash: spec_fn(Seq<char>) -> Seq<char>,
    room_name: Seq<char>,
    mode: Seq<char>,
    api_key: Option<Seq<char>>,
    members: Option<Seq<Seq<char>>>,
)
    ensures
        ({
            let room = text::trimmed(room_name);
            let row = ("__groups"@, room);
            let held = if docs.contains_key(row) {
                docs[row]
            } else {
                Map::empty()
            };
            let held_key = held.contains_key("api_key_hash"@) && held["api_key_hash"@] is Text
                && held["api_key_hash"@]->Text_0.len() > 0;
            let held_members = if held.contains_key("members"@) && held["members"@] is Array {
                held["members"@]->Array_0.filter_map(
                    |v: ValueView|
                        if v is Text {
                            Some(v->Text_0)
                        } else {
                            None
                        },
                )
            } else {
                Seq::empty()
            };
            let key = match api_key {
                Some(k) => text::trimmed(k),
                None => Seq::empty(),
            };
            let listed = match members {
                Some(given) => given,
                None => held_members,
            }.map_values(|m: Seq<char>| text::trimmed(m)).filter(|m: Seq<char>| m.len() > 0);
            let (after, step) = run_set(docs, hash, room_name, mode, api_key, members);
            if room.len() == 0 {
                after == docs && step == GroupStepView::Fail("Nama room tidak boleh kosong."@)
            } else if groups::mode_named(mode) is None {
                after == docs && step == GroupStepView::Fail(
                    "Mode harus \"open\" atau \"registered\"."@,
                )
            } else if key.len() > 0 && utf8::encode_utf8(key).len() < 16 {
                after == docs && step == GroupStepView::Fail("API key minimal 16 karakter."@)
            } else if groups::mode_named(mode) == Some(GroupMode::Registered) && key.len() == 0
                && !held_key {
                after == docs && step == GroupStepView::Fail(
                    "Mode registered butuh API key — buat/generate dulu."@,
                )
            } else {
                let named = if groups::mode_named(mode) == Some(GroupMode::Registered) {
                    "registered"@
                } else {
                    "open"@
                };
                let doc = after[row];
                &&& after == docs.insert(row, doc)
                &&& doc.contains_key("mode"@) && doc["mode"@] == ValueView::Text(named)
                &&& doc.contains_key("members"@) && doc["members"@] == ValueView::Array(
                    listed.map_values(|m: Seq<char>| ValueView::Text(m)),
                )
                &&& key.len() > 0 ==> doc.contains_key("api_key_hash"@) && doc["api_key_hash"@]
                    == ValueView::Text(hash(key))
                &&& key.len() == 0 ==> doc.contains_key("api_key_hash"@) == held.contains_key(
                    "api_key_hash"@,
                )
                &&& key.len() == 0 && held.contains_key("api_key_hash"@) ==> doc["api_key_hash"@]
                    == held["api_key_hash"@]
                &&& forall|name: Seq<char>| #[trigger]
                    doc.contains_key(name) ==> name == "mode"@ || name == "members"@ || name
                        == "api_key_hash"@
                &&& step == GroupStepView::Done(
                    GroupPolicyView {
                        room_name: room,
                        mode: named,
                        has_key: if key.len() > 0 {
                            hash(key).len() > 0
                        } else {
                            held_key
                        },
                        members: listed,
                    },
                )
            }
        }),
{
    let room = text::trimmed(room_name);
    let row = ("__groups"@, room);
    group_laws::law_group_set(docs, hash, room_name, mode, api_key, members);
    if docs.contains_key(row) && docs[row].contains_key("members"@) {
        if let ValueView::Array(items) = docs[row]["members"@] {
            lemma_texts(items);
        }
    }
    let given = match members {
        Some(given) => given,
        None => group_laws::room_policy(docs, room).members,
    };
    let listed = groups::cleaned(given);
    lemma_cleaned(given);
    group_laws::lemma_policy_field_names();
    if let Some(m) = groups::mode_named(mode) {
        if let Some(key) = groups::new_key(api_key) {
            let stored = Some(ValueView::Text(hash(key)));
            group_laws::law_policy_reads_back(room, m, stored, listed);
        } else {
            let stored = group_laws::room_hash(docs, room);
            group_laws::law_policy_reads_back(room, m, stored, listed);
        }
    }
}

/// Members that are given replace those that were listed: a request that is not refused leaves
/// exactly them, trimmed and without the blank ones, and leaves them as given where they are
/// trimmed and not blank; two rooms that differ in what they listed before come to list the
/// same.
pub proof fn law_given_members_replace_the_listed(
    docs: Docs,
    other_docs: Docs,
    hash: spec_fn(Seq<char>) -> Seq<char>,
    room_name: Seq<char>,
    mode: Seq<char>,
    api_key: Option<Seq<char>>,
    given: Seq<Seq<char>>,
)
    ensures
        ({
            let (after, step) = run_set(docs, hash, room_name, mode, api_key, Some(given));
            let (other_after, other_step) = run_set(
                other_docs,
                hash,
                room_name,
                mode,
                api_key,
                Some(given),
            );
            &&& step is Done ==> step->Done_0.members == given.map_values(
                |m: Seq<char>| text::trimmed(m),
            ).filter(|m: Seq<char>| m.len() > 0)
            &&& step is Done && (forall|i: int|
                0 <= i < given.len() ==> text::trimmed(#[trigger] given[i]) == given[i]
                    && given[i].len() > 0) ==> step->Done_0.members == given
            &&& step is Done && other_step is Done ==> step->Done_0.members
                == other_step->Done_0.members
        }),
{
    law_policy_is_set_as_requested(docs, hash, room_name, mode, api_key, Some(given));
    law_policy_is_set_as_requested(other_docs, hash, room_name, mode, api_key, Some(given));
    if forall|i: int|
        0 <= i < given.len() ==> text::trimmed(#[trigger] given[i]) == given[i] && given[i].len()
            > 0 {
        lemma_cleaned(given);
        assert forall|i: int| 0 <= i < given.len() implies text::is_trim(#[trigger] given[i])
            && given[i].len() > 0 by {
            text::law_trimming_once_is_enough(given[i]);
        }
        group_laws::law_cleaning(given);
    }
}

/// Showing a policy changes nothing, is refused for a blank room name, and otherwise shows of
/// the room's document: the mode where it is a text, or else "open"; whether it holds a hash that
/// is a text and not empty; and the texts among the members, in order.
pub proof fn law_policy_is_shown_as_stored(
    docs: Docs,
    hash: spec_fn(Seq<char>) -> Seq<char>,
    room_name: Seq<char>,
)
    ensures
        ({
            let room = text::trimmed(room_name);
            let row = ("__groups"@, room);
            let held = if docs.contains_key(row) {
                docs[row]
            } else {
                Map::empty()
            };
            let (after, step) = group_laws::group_run(
                groups::group_get_start(room_name),
                docs,
                hash,
                1,
            );
            &&& after == docs
            &&& room.len() == 0 ==> step == GroupStepView::Fail("Nama room tidak boleh kosong."@)
            &&& room.len() > 0 ==> step == GroupStepView::Done(
                GroupPolicyView {
                    room_name: room,
                    mode: if held.contains_key("mode"@) && held["mode"@] is Text {
                        held["mode"@]->Text_0
                    } else {
                        "open"@
                    },
                    has_key: held.contains_key("api_key_hash"@) && held["api_key_hash"@] is Text
                        && held["api_key_hash"@]->Text_0.len() > 0,
                    members: if held.contains_key("members"@) && held["members"@] is Array {
                        held["members"@]->Array_0.filter_map(
                            |v: ValueView|
                                if v is Text {
                                    Some(v->Text_0)
                                } else {
                                    None
                                },
                        )
                    } else {
                        Seq::empty()
                    },
                },
            )
        }),
{
    let room = text::trimmed(room_name);
    let row = ("__groups"@, room);
    group_laws::law_group_get(docs, hash, room_name);
    if docs.contains_key(row) && docs[row].contains_key("members"@) {
        if let ValueView::Array(items) = docs[row]["members"@] {
            lemma_texts(items);
        }
    }
}

/// Adding a client is refused for a blank id. Otherwise it is setting the policy with the mode
/// that the room has, without a key, and with the members that it has and the trimmed client
/// behind them, or with those alone where the client is among them.
pub proof fn law_adding_sets_one_more(
    docs: Docs,
    hash: spec_fn(Seq<char>) -> Seq<char>,
    room_name: Seq<char>,
    client_id: Seq<char>,
)
    ensures
        ({
            let row = ("__groups"@, text::trimmed(room_name));
            let held = if docs.contains_key(row) {
                docs[row]
            } else {
                Map::empty()
            };
            let held_mode = if held.contains_key("mode"@) && held["mode"@] is Text {
                held["mode"@]->Text_0
            } else {
                "open"@
            };
            let held_members = if held.contains_key("members"@) && held["members"@] is Array {
                held["members"@]->Array_0.filter_map(
                    |v: ValueView|
                        if v is Text {
                            Some(v->Text_0)
                        } else {
                            None
                        },
                )
            } else {
                Seq::empty()
            };
            let client = text::trimmed(client_id);
            group_laws::group_run(groups::group_add_start(room_name, client_id), docs, hash, 5)
                == if client.len() == 0 {
                (docs, GroupStepView::Fail("Client ID tidak boleh kosong."@))
            } else if held_members.contains(client) {
                run_set(docs, hash, room_name, held_mode, None, Some(held_members))
            } else {
                run_set(docs, hash, room_name, held_mode, None, Some(held_members.push(client)))
            }
        }),
{
    let room = text::trimmed(room_name);
    let row = ("__groups"@, room);
    let policy = group_laws::room_policy(docs, room);
    let members = groups::with(policy.members, text::trimmed(client_id));
    text::law_trimming_once_is_enough(room_name);
    group_laws::law_group_add_member(docs, hash, room_name, client_id);
    group_laws::law_group_set(docs, hash, room_name, policy.mode, None, Some(members));
    if docs.contains_key(row) && docs[row].contains_key("members"@) {
        if let ValueView::Array(items) = docs[row]["members"@] {
            lemma_texts(items);
        }
    }
}

/// Removing a client is setting the policy with the mode that the room has, without a key, and
/// with the members that it has other than the trimmed client, in order.
pub proof fn law_removing_sets_the_others(
    docs: Docs,
    hash: spec_fn(Seq<char>) -> Seq<char>,
    room_name: Seq<char>,
    client_id: Seq<char>,
)
    ensures
        ({
            let row = ("__groups"@, text::trimmed(room_name));
            let held = if docs.contains_key(row) {
                docs[row]
            } else {
                Map::empty()
            };
            let held_mode = if held.contains_key("mode"@) && held["mode"@] is Text {
                held["mode"@]->Text_0
            } else {
                "open"@
            };
            let held_members = if held.contains_key("members"@) && held["members"@] is Array {
                held["members"@]->Array_0.filter_map(
                    |v: ValueView|
                        if v is Text {
                            Some(v->Text_0)
                        } else {
                            None
                        },
                )
            } else {
                Seq::empty()
            };
            let client = text::trimmed(client_id);
            group_laws::group_run(groups::group_remove_start(room_name, client_id), docs, hash, 5)
                == run_set(
                docs,
                hash,
                room_name,
                held_mode,
                None,
                Some(held_members.filter(|m: Seq<char>| m != client)),
            )
        }),
{
    let room = text::trimmed(room_name);
    let client = text::trimmed(client_id);
    let row = ("__groups"@, room);
    let policy = group_laws::room_policy(docs, room);
    let members = groups::without(policy.members, client);
    text::law_trimming_once_is_enough(room_name);
    group_laws::law_group_remove_member(docs, hash, room_name, client_id);
    group_laws::law_group_set(docs, hash, room_name, policy.mode, None, Some(members));
    lemma_without(policy.members, client);
    if docs.contains_key(row) && docs[row].contains_key("members"@) {
        if let ValueView::Array(items) = docs[row]["members"@] {
            lemma_texts(items);
        }
    }
}

/// A read that fails is to a group command as if the document were missing. A write that fails
/// is answered with its error, and any other reply to a write is as good as another.
pub proof fn law_group_failures(command: GroupCommandView, reply: ReplyView, error: Seq<char>)
    ensures
        command is Write ==> groups::group_next(command, ReplyView::Failed(error))
            == GroupStepView::Fail(error),
        command is Write && !(reply is Failed) ==> groups::group_next(command, reply)
            == groups::group_next(command, ReplyView::Done),
        !(command is Write) ==> groups::group_next(command, ReplyView::Failed(error))
            == groups::group_next(command, ReplyView::Missing) && groups::group_next(
            command,
            ReplyView::Failed(error),
        ) == groups::group_next(command, ReplyView::Done),
{
}

/// What is read of a room's document, whatever the room's name: the name as it is given, the
/// mode where it is a text, or else "open"; whether there is a hash that is a text and not empty;
/// and the texts among the members, in order. A room without a document is read as if the
/// document had no fields.
pub proof fn law_policies_are_read_by_their_fields(doc: Option<DocView>, room_name: Seq<char>)
    ensures
        ({
            let held = match doc {
                Some(d) => d,
                None => Map::empty(),
            };
            groups::policy_of(doc, room_name) == (GroupPolicyView {
                room_name,
                mode: if held.contains_key("mode"@) && held["mode"@] is Text {
                    held["mode"@]->Text_0
                } else {
                    "open"@
                },
                has_key: held.contains_key("api_key_hash"@) && held["api_key_hash"@] is Text
                    && held["api_key_hash"@]->Text_0.len() > 0,
                members: if held.contains_key("members"@) && held["members"@] is Array {
                    held["members"@]->Array_0.filter_map(
                        |v: ValueView|
                            if v is Text {
                                Some(v->Text_0)
                            } else {
                                None
                            },
                    )
                } else {
                    Seq::empty()
                },
            })
        }),
{
    if let Some(d) = doc {
        if d.contains_key("members"@) {
            if let ValueView::Array(items) = d["members"@] {
                lemma_texts(items);
            }
        }
    }
}

/// Each read counts by itself, whatever an earlier one gave. The hash that is kept is the one in
/// the document that is read last before the write, and there is none where that document is
/// gone by then; whether the room had a key is not asked again. What is shown at the end is what
/// is read at the end.
pub proof fn law_each_read_of_the_room_counts(
    room: Seq<char>,
    mode: GroupMode,
    has_key: bool,
    members: Seq<Seq<char>>,
    reply: ReplyView,
)
    ensures
        ({
            let kept = reply is Found && reply->Found_0.contains_key("api_key_hash"@);
            let step = groups::group_next(
                GroupCommandView::OldHash { room, mode, has_key, members },
                reply,
            );
            if mode is Registered && !has_key {
                step == GroupStepView::Fail("Mode registered butuh API key — buat/generate dulu."@)
            } else {
                &&& step is Do
                &&& step->Do_0 == (GroupCommandView::Write { room })
                &&& step->Do_1 is Put
                &&& step->Do_1->Put_collection == "__groups"@
                &&& step->Do_1->Put_id == room
                &&& step->Do_1->doc.contains_key("api_key_hash"@) == kept
                &&& kept ==> step->Do_1->doc["api_key_hash"@]
                    == reply->Found_0["api_key_hash"@]
                &&& step->Do_1->doc["mode"@] == ValueView::Text(
                    if mode is Registered {
                        "registered"@
                    } else {
                        "open"@
                    },
                )
                &&& step->Do_1->doc["members"@] == ValueView::Array(
                    members.map_values(|m: Seq<char>| ValueView::Text(m)),
                )
            }
        }),
        groups::group_next(GroupCommandView::Read { room }, reply) == GroupStepView::Done(
            groups::policy_of(
                if reply is Found {
                    Some(reply->Found_0)
                } else {
                    None
                },
                room,
            ),
        ),
{
    group_laws::lemma_policy_field_names();
}

} // verus!
