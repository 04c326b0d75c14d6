//! Creating, joining, leaving, reading and deleting groups.

use vstd::prelude::*;
use crate::access::{can_delete_group, may_delete_group, readable_among, readable_notes};
use crate::clock::is_instant;
use crate::errors::{resource_failure, ServiceError, StoreError};
use crate::ident::is_id_text;
use crate::models::{created_group, text_of, Group, GroupLink, LoggedUser, NewGroup, Note};
use crate::store::{
    group_removal, loaded, planned, views_of, Planned, StoreWrite, StoreWriteView,
};

verus! {

/// A group with the notes that are shared with it.
#[derive(Debug, PartialEq, Eq)]
pub struct GroupedNotes {
    pub group: Group,
    pub notes: Vec<Note>,
}

/// The group that a request to join or to leave names.
#[derive(Debug, PartialEq, Eq)]
pub struct GroupTarget {
    pub id: String,
}

/// What is said of a request that names a group which does not exist.
pub open spec fn no_such_group() -> Seq<char> {
    "Invalid group identifiers!"@
}

/// The test that picks the notes shared with `group`.
pub open spec fn shared_with(group: Seq<char>) -> spec_fn(Note) -> bool {
    |note: Note| text_of(note.group_id) == Some(group)
}

/// Whether no group after the one at `index` has its identifier.
pub open spec fn is_last_of_its_id(groups: Seq<Group>, index: int) -> bool {
    forall|later: int|
        index < later < groups.len() ==> (#[trigger] groups[later]).id@ != groups[index].id@
}

/// The notes that go with the group at `index`: those of `notes` that are
/// shared with it, in their order. Identifiers of groups are unique in the
/// store; were one to occur twice, the last group of that identifier would
/// get the notes and the earlier ones none.
pub open spec fn notes_of_group(notes: Seq<Note>, groups: Seq<Group>, index: int) -> Seq<Note> {
    if is_last_of_its_id(groups, index) {
        notes.filter(shared_with(groups[index].id@))
    } else {
        Seq::empty()
    }
}

/// Whether a group after the one at `index` has its identifier.
fn has_later_namesake(groups: &Vec<Group>, index: usize) -> (r: bool)
    requires
        index < groups.len(),
    ensures
        r == !is_last_of_its_id(groups@, index as int),
{
    let mut later: usize = index + 1;
    while later < groups.len()
        invariant
            index < later <= groups.len(),
            forall|k: int| index < k < later ==> (#[trigger] groups@[k]).id@ != groups@[index as int].id@,
        decreases groups.len() - later,
    {
        if groups[later].id == groups[index].id {
            return true;
        }
        later += 1;
    }
    false
}

/// The notes of `notes` that are shared with the group `group_id`, in their
/// order.
pub fn notes_shared_with(notes: &Vec<Note>, group_id: &String) -> (r: Vec<Note>)
    ensures
        r@ == notes@.filter(shared_with(group_id@)),
{
    let mut shared: Vec<Note> = Vec::new();
    let mut i: usize = 0;
    proof {
        reveal(Seq::filter);
        assert(notes@.take(0) =~= Seq::<Note>::empty());
    }
    while i < notes.len()
        invariant
            i <= notes.len(),
            shared@ == notes@.take(i as int).filter(shared_with(group_id@)),
        decreases notes.len() - i,
    {
        let is_shared = match &notes[i].group_id {
            Some(group) => *group == *group_id,
            None => false,
        };
        proof {
            assert(notes@.take(i + 1) =~= notes@.take(i as int).push(notes@[i as int]));
            notes@.take(i as int).lemma_filter_push(notes@[i as int], shared_with(group_id@));
            assert(is_shared == shared_with(group_id@)(notes@[i as int]));
        }
        if is_shared {
            shared.push(notes[i].clone());
        }
        i += 1;
    }
    proof {
        assert(notes@.take(notes@.len() as int) =~= notes@);
    }
    shared
}

/// Sorts `notes` under the groups they are shared with: one entry for each
/// group, in the order of `groups`, each with its notes in the order of
/// `notes`. A note that is shared with none of the groups is left out.
pub fn grouped_by(notes: &Vec<Note>, groups: &Vec<Group>) -> (r: Vec<GroupedNotes>)
    ensures
        r@.len() == groups@.len(),
        forall|i: int|
            0 <= i < groups@.len() ==> (#[trigger] r@[i]).group == groups@[i] && r@[i].notes@
                == notes_of_group(notes@, groups@, i),
{
    let mut sorted: Vec<GroupedNotes> = Vec::new();
    let mut i: usize = 0;
    while i < groups.len()
        invariant
            i <= groups.len(),
            sorted@.len() == i,
            forall|k: int|
                0 <= k < i ==> (#[trigger] sorted@[k]).group == groups@[k] && sorted@[k].notes@
                    == notes_of_group(notes@, groups@, k),
        decreases groups.len() - i,
    {
        let of_group = if has_later_namesake(groups, i) {
            Vec::new()
        } else {
            notes_shared_with(notes, &groups[i].id)
        };
        sorted.push(GroupedNotes { group: groups[i].clone(), notes: of_group });
        i += 1;
    }
    sorted
}

/// Answers a request for the groups of a principal with their notes.
/// `groups` are the groups that the principal is a member of, `notes` the
/// notes that are shared with any of them.
///
/// A read that failed is answered as `ServiceError::in_resource` says, that
/// of the groups first. Otherwise the answer is `grouped_by` of the two.
pub fn users_groups_notes(
    groups: Result<Vec<Group>, StoreError>,
    notes: Result<Vec<Note>, StoreError>,
) -> (r: Result<Vec<GroupedNotes>, ServiceError>)
    ensures
        match (groups, notes) {
            (Err(error), _) => r matches Err(refusal) && refusal@ == resource_failure(
                error,
                no_such_group(),
            ),
            (Ok(_), Err(error)) => r matches Err(refusal) && refusal@ == resource_failure(
                error,
                no_such_group(),
            ),
            (Ok(joined), Ok(shared)) => {
                &&& r matches Ok(sorted)
                &&& sorted@.len() == joined@.len()
                &&& forall|i: int|
                    0 <= i < joined@.len() ==> (#[trigger] sorted@[i]).group == joined@[i]
                        && sorted@[i].notes@ == notes_of_group(shared@, joined@, i)
            },
        },
{
    let joined = match loaded(groups, "Invalid group identifiers!") {
        Ok(joined) => joined,
        Err(refusal) => {
            return Err(refusal);
        },
    };
    let shared = match loaded(notes, "Invalid group identifiers!") {
        Ok(shared) => shared,
        Err(refusal) => {
            return Err(refusal);
        },
    };
    Ok(grouped_by(&shared, &joined))
}

/// Answers a request for one group with its notes. `group` is what the
/// store gave under the identifier that was asked for, `notes` the notes
/// that are shared with that group, and `links` the memberships that the
/// store holds for `user`.
///
/// A read that failed is answered as `ServiceError::in_resource` says: that
/// of the group first, then that of the notes, then that of the
/// memberships. Otherwise the answer is the group with those of the notes
/// that `user` may read: their own, the public ones, and, to a member of the
/// group a note is shared with, that note. Someone who is not a member gets
/// no private note of anyone else.
pub fn group_notes(
    user: &LoggedUser,
    group: Result<Group, StoreError>,
    notes: Result<Vec<Note>, StoreError>,
    links: Result<Vec<GroupLink>, StoreError>,
) -> (r: Result<GroupedNotes, ServiceError>)
    ensures
        match (group, notes, links) {
            (Err(error), _, _) => r matches Err(refusal) && refusal@ == resource_failure(
                error,
                no_such_group(),
            ),
            (Ok(_), Err(error), _) => r matches Err(refusal) && refusal@ == resource_failure(
                error,
                no_such_group(),
            ),
            (Ok(_), Ok(_), Err(error)) => r matches Err(refusal) && refusal@
                == resource_failure(error, no_such_group()),
            (Ok(found), Ok(shared), Ok(held)) => {
                &&& r matches Ok(shown)
                &&& shown.group == found
                &&& shown.notes@ == shared@.filter(readable_among(user.id@, held@))
            },
        },
{
    let found = match loaded(group, "Invalid group identifiers!") {
        Ok(found) => found,
        Err(refusal) => {
            return Err(refusal);
        },
    };
    let shared = match loaded(notes, "Invalid group identifiers!") {
        Ok(shared) => shared,
        Err(refusal) => {
            return Err(refusal);
        },
    };
    match loaded(links, "Invalid group identifiers!") {
        Ok(held) => Ok(GroupedNotes { group: found, notes: readable_notes(user, &shared, &held) }),
        Err(refusal) => Err(refusal),
    }
}

/// Answers a request for the groups of a principal. `groups` are the
/// groups that the principal is a member of. A read that failed is answered
/// as `ServiceError::in_resource` says; otherwise the answer is those
/// groups.
pub fn get_user_groups(groups: Result<Vec<Group>, StoreError>) -> (r: Result<
    Vec<Group>,
    ServiceError,
>)
    ensures
        match groups {
            Ok(joined) => r == Ok::<Vec<Group>, ServiceError>(joined),
            Err(error) => r matches Err(refusal) && refusal@ == resource_failure(
                error,
                no_such_group(),
            ),
        },
{
    loaded(groups, "Invalid group identifiers!")
}

/// Answers a request to create a group: the group of `user` made from what
/// was sent, under a new identifier and with the time in UTC, with the one
/// write that adds it. Any principal may create a group.
pub fn insert(new_group: NewGroup, user: LoggedUser) -> (r: Planned<Group>)
    ensures
        is_id_text(r.reply.id@),
        is_instant(r.reply.created_at as int),
        r.reply@ == created_group(r.reply.id@, new_group, user.id@, r.reply.created_at as int),
        r.writes@.len() == 1,
        r.writes@[0]@ == StoreWriteView::InsertGroup(r.reply@),
{
    let made = Group::from(new_group, user);
    let write = StoreWrite::InsertGroup(made.clone());
    planned(made, write)
}

/// Answers a request to join a group. `group` is what the store gave under
/// the identifier in the request.
///
/// A read that failed is answered as `ServiceError::in_resource` says.
/// Otherwise the answer is the group, with the one write that adds the
/// membership of `user` in it under a new identifier. Any principal may
/// join any group.
pub fn join(user: &LoggedUser, group: Result<Group, StoreError>) -> (r: Result<
    Planned<Group>,
    ServiceError,
>)
    ensures
        match group {
            Err(error) => r matches Err(refusal) && refusal@ == resource_failure(
                error,
                no_such_group(),
            ),
            Ok(found) => {
                &&& r matches Ok(plan)
                &&& plan.reply == found
                &&& plan.writes@.len() == 1
                &&& plan.writes@[0] matches StoreWrite::InsertGroupLink(link)
                &&& is_id_text(link.id@)
                &&& link.user_id@ == user.id@
                &&& link.group_id@ == found.id@
            },
        },
{
    let found = match loaded(group, "Invalid group identifiers!") {
        Ok(found) => found,
        Err(refusal) => {
            return Err(refusal);
        },
    };
    let link = GroupLink::from(&found, user);
    Ok(planned(found, StoreWrite::InsertGroupLink(link)))
}

/// Answers a request to leave a group. `group` is what the store gave
/// under the identifier in `target`.
///
/// A read that failed is answered as `ServiceError::in_resource` says.
/// Otherwise the answer is the group, with the one write that removes the
/// memberships of `user` in the group that `target` names.
pub fn leave(target: GroupTarget, user: &LoggedUser, group: Result<Group, StoreError>) -> (r:
    Result<Planned<Group>, ServiceError>)
    ensures
        match group {
            Err(error) => r matches Err(refusal) && refusal@ == resource_failure(
                error,
                no_such_group(),
            ),
            Ok(found) => {
                &&& r matches Ok(plan)
                &&& plan.reply == found
                &&& plan.writes@.len() == 1
                &&& plan.writes@[0]@ == (StoreWriteView::DeleteGroupLink {
                    group_id: target.id@,
                    user_id: user.id@,
                })
            },
        },
{
    let found = match loaded(group, "Invalid group identifiers!") {
        Ok(found) => found,
        Err(refusal) => {
            return Err(refusal);
        },
    };
    let write = StoreWrite::DeleteGroupLink { group_id: target.id, user_id: user.id.clone() };
    Ok(planned(found, write))
}

/// Answers a request to delete a group. `group` is what the store gave
/// under the identifier that was asked for.
///
/// A read that failed is answered as `ServiceError::in_resource` says, and
/// a group that someone else created as `Forbidden`. Its creator gets the
/// group back, with two writes: the first removes the memberships in the
/// group, the second the group.
pub fn delete(user: &LoggedUser, group: Result<Group, StoreError>) -> (r: Result<
    Planned<Group>,
    ServiceError,
>)
    ensures
        match group {
            Err(error) => r matches Err(refusal) && refusal@ == resource_failure(
                error,
                no_such_group(),
            ),
            Ok(found) => if !may_delete_group(user.id@, found@) {
                r == Err::<Planned<Group>, ServiceError>(ServiceError::Forbidden)
            } else {
                &&& r matches Ok(plan)
                &&& plan.reply == found
                &&& views_of(plan.writes@) == group_removal(found.id@)
            },
        },
{
    let found = match loaded(group, "Invalid group identifiers!") {
        Ok(found) => found,
        Err(refusal) => {
            return Err(refusal);
        },
    };
    if !can_delete_group(user, &found) {
        return Err(ServiceError::Forbidden);
    }
    let mut writes: Vec<StoreWrite> = Vec::new();
    writes.push(StoreWrite::DeleteGroupLinks(found.id.clone()));
    writes.push(StoreWrite::DeleteGroup(found.id.clone()));
    assert(views_of(writes@) =~= group_removal(found.id@));
    Ok(Planned { reply: found, writes })
}

} // verus!
