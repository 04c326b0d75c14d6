//! Who may read, change or delete what.
//!
//! A note can be read by its owner, by everyone where it is public, and by
//! the members of the group it is shared with. Only its owner can change or
//! delete it: sharing is read-only. A group can be deleted by its creator
//! alone. Nothing here fails: each question is answered with a `bool`.

use vstd::prelude::*;
use crate::models::{Group, GroupLink, GroupView, LoggedUser, Note, NoteView};

verus! {

/// Whether the principal with the identifier `principal` may read `note`,
/// given whether that principal is a `member` of the note's group.
pub open spec fn may_read(principal: Seq<char>, note: NoteView, member: bool) -> bool {
    note.user_id == principal || note.public == 1 || (note.group_id is Some && member)
}

/// Whether `note` is readable without any membership: by its owner, or by
/// anyone where it is public.
pub open spec fn may_read_unshared(principal: Seq<char>, note: NoteView) -> bool {
    note.user_id == principal || note.public == 1
}

/// Whether the principal with the identifier `principal` may change or
/// delete `note`.
pub open spec fn may_mutate(principal: Seq<char>, note: NoteView) -> bool {
    note.user_id == principal
}

/// Whether the principal with the identifier `principal` may delete `group`.
pub open spec fn may_delete_group(principal: Seq<char>, group: GroupView) -> bool {
    group.created_by == principal
}

/// Whether `links` holds a membership of `user` in `group`.
pub open spec fn has_link(links: Seq<GroupLink>, user: Seq<char>, group: Seq<char>) -> bool {
    exists|i: int|
        0 <= i < links.len() && (#[trigger] links[i]).user_id@ == user && links[i].group_id@
            == group
}

/// Whether `links` holds a membership of `principal` in the group that
/// `note` is shared with.
pub open spec fn is_shared_with(links: Seq<GroupLink>, principal: Seq<char>, note: NoteView) -> bool {
    note.group_id matches Some(group) && has_link(links, principal, group)
}

/// Whether `links` holds a membership of `user_id` in `group_id`.
pub fn is_member(links: &Vec<GroupLink>, user_id: &String, group_id: &String) -> (r: bool)
    ensures
        r == has_link(links@, user_id@, group_id@),
{
    let mut i: usize = 0;
    while i < links.len()
        invariant
            i <= links.len(),
            forall|j: int|
                0 <= j < i ==> !((#[trigger] links@[j]).user_id@ == user_id@ && links@[j].group_id@
                    == group_id@),
        decreases links.len() - i,
    {
        if links[i].user_id == *user_id && links[i].group_id == *group_id {
            return true;
        }
        i += 1;
    }
    false
}

/// Whether `principal` may read `note`. `membership_lookup` is asked, with
/// the principal's identifier and the group's, only where the answer rests
/// on it: the principal is not the owner, the note is not public, and it is
/// shared with a group. The result is then what the lookup answered.
pub fn can_read_note<L: Fn(&String, &String) -> bool>(
    principal: &LoggedUser,
    note: &Note,
    membership_lookup: &L,
) -> (r: bool)
    requires
        note.group_id matches Some(group) ==> call_requires(
            *membership_lookup,
            (&principal.id, &group),
        ),
    ensures
        may_read_unshared(principal.id@, note@) ==> r,
        !may_read_unshared(principal.id@, note@) ==> match note.group_id {
            Some(group) => call_ensures(*membership_lookup, (&principal.id, &group), r),
            None => !r,
        },
        exists|member: bool| r == may_read(principal.id@, note@, member),
{
    if note.user_id == principal.id || note.public == 1 {
        assert(true == may_read(principal.id@, note@, true));
        return true;
    }
    match &note.group_id {
        Some(group) => {
            let member = membership_lookup(&principal.id, group);
            assert(member == may_read(principal.id@, note@, member));
            member
        },
        None => {
            assert(false == may_read(principal.id@, note@, false));
            false
        },
    }
}

/// Whether `principal` may read `note`, where `links` are the memberships
/// that the store holds for the principal.
pub fn can_read_note_among(principal: &LoggedUser, note: &Note, links: &Vec<GroupLink>) -> (r: bool)
    ensures
        r == may_read(principal.id@, note@, is_shared_with(links@, principal.id@, note@)),
{
    if note.user_id == principal.id || note.public == 1 {
        return true;
    }
    match &note.group_id {
        Some(group) => is_member(links, &principal.id, group),
        None => false,
    }
}

/// The test that picks the notes which the principal with the identifier
/// `principal` may read, where `links` are the memberships that the store
/// holds for that principal.
pub open spec fn readable_among(principal: Seq<char>, links: Seq<GroupLink>) -> spec_fn(
    Note,
) -> bool {
    |note: Note| may_read(principal, note@, is_shared_with(links, principal, note@))
}

/// The notes of `notes` that `principal` may read, in their order, where
/// `links` are the memberships that the store holds for the principal.
pub fn readable_notes(principal: &LoggedUser, notes: &Vec<Note>, links: &Vec<GroupLink>) -> (r:
    Vec<Note>)
    ensures
        r@ == notes@.filter(readable_among(principal.id@, links@)),
{
    let mut readable: Vec<Note> = Vec::new();
    let mut i: usize = 0;
    proof {
        reveal(Seq::filter);
        assert(notes@.take(0) =~= Seq::<Note>::empty());
    }
    while i < notes.len()
        invariant
            i <= notes.len(),
            readable@ == notes@.take(i as int).filter(readable_among(principal.id@, links@)),
        decreases notes.len() - i,
    {
        let may = can_read_note_among(principal, &notes[i], links);
        proof {
            assert(notes@.take(i + 1) =~= notes@.take(i as int).push(notes@[i as int]));
            notes@.take(i as int).lemma_filter_push(
                notes@[i as int],
                readable_among(principal.id@, links@),
            );
            assert(may == readable_among(principal.id@, links@)(notes@[i as int]));
        }
        if may {
            readable.push(notes[i].clone());
        }
        i += 1;
    }
    proof {
        assert(notes@.take(notes@.len() as int) =~= notes@);
    }
    readable
}

/// Whether `principal` may change or delete `note`: only its owner may.
pub fn can_mutate_note(principal: &LoggedUser, note: &Note) -> (r: bool)
    ensures
        r == may_mutate(principal.id@, note@),
{
    note.user_id == principal.id
}

/// Whether `principal` may delete `group`: only its creator may.
pub fn can_delete_group(principal: &LoggedUser, group: &Group) -> (r: bool)
    ensures
        r == may_delete_group(principal.id@, group@),
{
    group.created_by == principal.id
}

/// The reading rule, case by case: the owner may always read; anyone may
/// read a public note; anyone else may read exactly where the note is shared
/// with a group of which they are a member.
pub proof fn lemma_read_rule(principal: Seq<char>, note: NoteView, member: bool)
    ensures
        note.user_id == principal ==> may_read(principal, note, member),
        note.public == 1 ==> may_read(principal, note, member),
        note.user_id != principal && note.public != 1 ==> (may_read(principal, note, member) <==> (
        note.group_id is Some && member)),
        note.user_id != principal && note.public != 1 && note.group_id is None ==> !may_read(
            principal,
            note,
            member,
        ),
{
}

/// Only the owner may change a note: whoever may change it owns it, and a
/// member of its group who is not the owner may read it and not change it.
pub proof fn lemma_sharing_is_read_only(principal: Seq<char>, note: NoteView, member: bool)
    ensures
        may_mutate(principal, note) <==> note.user_id == principal,
        may_mutate(principal, note) ==> may_read(principal, note, member),
        note.user_id != principal && note.group_id is Some && member ==> may_read(
            principal,
            note,
            member,
        ) && !may_mutate(principal, note),
{
}

} // verus!
