//! What the service asks of its store, and what that does to the rows.
//!
//! The service never touches the store itself. A request is answered from
//! rows that were loaded for it, and the answer lists the writes that are to
//! follow, in order. `Tables` is the mathematical picture of the rows that
//! the rules of this crate read, and `apply` says what one write does to
//! them; the laws at the end of this file are stated over that picture.

use vstd::prelude::*;
use crate::errors::{resource_failure, ServiceError, StoreError};
use crate::models::{
    activated, resolved, Group, GroupLink, GroupLinkView, GroupView, Invitation, InvitationView,
    Note, NotePatch, NoteView, User, UserView,
};

verus! {

/// One write to the store.
#[derive(Debug, PartialEq, Eq)]
pub enum StoreWrite {
    /// Adds an account.
    InsertUser(User),
    /// Adds an invitation.
    InsertInvitation(Invitation),
    /// Sets the activation flag of the account with this identifier.
    ActivateUser(String),
    /// Marks the invitation with this identifier as used. The store is to
    /// make this write only where the invitation is still unused, and to
    /// report `StoreError::NotFound` where it is not.
    ResolveInvitation(String),
    /// Adds a note.
    InsertNote(Note),
    /// Changes the fields that the patch names, on the note with this
    /// identifier.
    PatchNote(String, NotePatch),
    /// Removes the note with this identifier.
    DeleteNote(String),
    /// Adds a group.
    InsertGroup(Group),
    /// Adds a membership.
    InsertGroupLink(GroupLink),
    /// Removes the memberships of one user in one group.
    DeleteGroupLink { group_id: String, user_id: String },
    /// Removes every membership in the group with this identifier.
    DeleteGroupLinks(String),
    /// Removes the group with this identifier.
    DeleteGroup(String),
}

/// A `StoreWrite` over the views of its rows.
pub enum StoreWriteView {
    InsertUser(UserView),
    InsertInvitation(InvitationView),
    ActivateUser(Seq<char>),
    ResolveInvitation(Seq<char>),
    InsertNote(NoteView),
    PatchNote(Seq<char>, NotePatch),
    DeleteNote(Seq<char>),
    InsertGroup(GroupView),
    InsertGroupLink(GroupLinkView),
    DeleteGroupLink { group_id: Seq<char>, user_id: Seq<char> },
    DeleteGroupLinks(Seq<char>),
    DeleteGroup(Seq<char>),
}

impl View for StoreWrite {
    type V = StoreWriteView;

    open spec fn view(&self) -> StoreWriteView {
        match self {
            StoreWrite::InsertUser(user) => StoreWriteView::InsertUser(user@),
            StoreWrite::InsertInvitation(invitation) => StoreWriteView::InsertInvitation(
                invitation@,
            ),
            StoreWrite::ActivateUser(id) => StoreWriteView::ActivateUser(id@),
            StoreWrite::ResolveInvitation(id) => StoreWriteView::ResolveInvitation(id@),
            StoreWrite::InsertNote(note) => StoreWriteView::InsertNote(note@),
            StoreWrite::PatchNote(id, patch) => StoreWriteView::PatchNote(id@, *patch),
            StoreWrite::DeleteNote(id) => StoreWriteView::DeleteNote(id@),
            StoreWrite::InsertGroup(group) => StoreWriteView::InsertGroup(group@),
            StoreWrite::InsertGroupLink(link) => StoreWriteView::InsertGroupLink(link@),
            StoreWrite::DeleteGroupLink { group_id, user_id } => StoreWriteView::DeleteGroupLink {
                group_id: group_id@,
                user_id: user_id@,
            },
            StoreWrite::DeleteGroupLinks(id) => StoreWriteView::DeleteGroupLinks(id@),
            StoreWrite::DeleteGroup(id) => StoreWriteView::DeleteGroup(id@),
        }
    }
}

/// The views of a list of writes, in order.
pub open spec fn views_of(writes: Seq<StoreWrite>) -> Seq<StoreWriteView> {
    writes.map_values(|write: StoreWrite| write@)
}

/// The rows of accounts, invitations, groups and memberships, each table
/// keyed by the identifier of its rows.
pub struct Tables {
    pub users: Map<Seq<char>, UserView>,
    pub invitations: Map<Seq<char>, InvitationView>,
    pub groups: Map<Seq<char>, GroupView>,
    pub links: Map<Seq<char>, GroupLinkView>,
}

impl Tables {
    /// Every membership is in a group that exists.
    pub open spec fn anchored(self) -> bool {
        forall|id: Seq<char>|
            self.links.contains_key(id) ==> self.groups.contains_key(
                (#[trigger] self.links[id]).group_id,
            )
    }

    /// Whether some membership is in the group `group`.
    pub open spec fn has_links_into(self, group: Seq<char>) -> bool {
        exists|id: Seq<char>|
            self.links.contains_key(id) && (#[trigger] self.links[id]).group_id == group
    }

    /// Whether `user` is a member of `group`.
    pub open spec fn is_member(self, user: Seq<char>, group: Seq<char>) -> bool {
        exists|id: Seq<char>|
            self.links.contains_key(id) && (#[trigger] self.links[id]).group_id == group
                && self.links[id].user_id == user
    }
}

/// The rows after one write. A row with an identifier that its table already
/// holds is not added: the store refuses it, and the rows stay as they are.
/// Writes to notes leave these tables alone.
pub open spec fn apply(tables: Tables, write: StoreWriteView) -> Tables {
    match write {
        StoreWriteView::InsertUser(user) => if tables.users.contains_key(user.id) {
            tables
        } else {
            Tables { users: tables.users.insert(user.id, user), ..tables }
        },
        StoreWriteView::InsertInvitation(invitation) => if tables.invitations.contains_key(
            invitation.id,
        ) {
            tables
        } else {
            Tables {
                invitations: tables.invitations.insert(invitation.id, invitation),
                ..tables
            }
        },
        StoreWriteView::ActivateUser(id) => if tables.users.contains_key(id) {
            Tables { users: tables.users.insert(id, activated(tables.users[id])), ..tables }
        } else {
            tables
        },
        StoreWriteView::ResolveInvitation(id) => if tables.invitations.contains_key(id) {
            Tables {
                invitations: tables.invitations.insert(id, resolved(tables.invitations[id])),
                ..tables
            }
        } else {
            tables
        },
        StoreWriteView::InsertGroup(group) => if tables.groups.contains_key(group.id) {
            tables
        } else {
            Tables { groups: tables.groups.insert(group.id, group), ..tables }
        },
        StoreWriteView::InsertGroupLink(link) => if tables.links.contains_key(link.id) {
            tables
        } else {
            Tables { links: tables.links.insert(link.id, link), ..tables }
        },
        StoreWriteView::DeleteGroupLink { group_id, user_id } => Tables {
            links: Map::new(
                |id: Seq<char>|
                    tables.links.contains_key(id) && !(tables.links[id].group_id == group_id
                        && tables.links[id].user_id == user_id),
                |id: Seq<char>| tables.links[id],
            ),
            ..tables
        },
        StoreWriteView::DeleteGroupLinks(group_id) => Tables {
            links: Map::new(
                |id: Seq<char>|
                    tables.links.contains_key(id) && tables.links[id].group_id != group_id,
                |id: Seq<char>| tables.links[id],
            ),
            ..tables
        },
        StoreWriteView::DeleteGroup(id) => Tables { groups: tables.groups.remove(id), ..tables },
        StoreWriteView::InsertNote(_) => tables,
        StoreWriteView::PatchNote(_, _) => tables,
        StoreWriteView::DeleteNote(_) => tables,
    }
}

/// The rows after a list of writes, made in order.
pub open spec fn apply_all(tables: Tables, writes: Seq<StoreWriteView>) -> Tables
    decreases writes.len(),
{
    if writes.len() == 0 {
        tables
    } else {
        apply_all(apply(tables, writes[0]), writes.drop_first())
    }
}

/// An answer together with the writes that are to be made before it is
/// given, in order.
#[derive(Debug, PartialEq, Eq)]
pub struct Planned<T> {
    pub reply: T,
    pub writes: Vec<StoreWrite>,
}

/// An answer that needs one write.
pub fn planned<T>(reply: T, write: StoreWrite) -> (r: Planned<T>)
    ensures
        r.reply == reply,
        r.writes@ == seq![write],
{
    let mut writes: Vec<StoreWrite> = Vec::new();
    writes.push(write);
    Planned { reply, writes }
}

/// What a read comes to: the rows where it went well, and otherwise the
/// refusal that `ServiceError::in_resource` makes of the failure.
pub fn loaded<T>(read: Result<T, StoreError>, message: &str) -> (r: Result<T, ServiceError>)
    ensures
        match read {
            Ok(rows) => r == Ok::<T, ServiceError>(rows),
            Err(error) => r matches Err(refusal) && refusal@ == resource_failure(
                error,
                message@,
            ),
        },
{
    match read {
        Ok(rows) => Ok(rows),
        Err(error) => Err(ServiceError::in_resource(error, message)),
    }
}

/// The answer to a request once its writes have been tried: `reply` where
/// the store made them, an internal error where it did not.
pub fn settle<T>(reply: T, written: Result<(), StoreError>) -> (r: Result<T, ServiceError>)
    ensures
        match written {
            Ok(_) => r == Ok::<T, ServiceError>(reply),
            Err(_) => r == Err::<T, ServiceError>(ServiceError::InternalServerError),
        },
{
    match written {
        Ok(_) => Ok(reply),
        Err(_) => Err(ServiceError::InternalServerError),
    }
}

/// An invitation that has been used stays used, and an account that is
/// active stays active, whatever is written afterwards.
pub proof fn lemma_flags_never_fall_back(tables: Tables, write: StoreWriteView, id: Seq<char>)
    ensures
        tables.invitations.contains_key(id) && tables.invitations[id].resolved == 1 ==> apply(
            tables,
            write,
        ).invitations.contains_key(id) && apply(tables, write).invitations[id].resolved == 1,
        tables.users.contains_key(id) && tables.users[id].active == 1 ==> apply(
            tables,
            write,
        ).users.contains_key(id) && apply(tables, write).users[id].active == 1,
{
}

/// As `lemma_flags_never_fall_back`, for any list of writes.
pub proof fn lemma_flags_never_fall_back_all(
    tables: Tables,
    writes: Seq<StoreWriteView>,
    id: Seq<char>,
)
    ensures
        tables.invitations.contains_key(id) && tables.invitations[id].resolved == 1 ==> apply_all(
            tables,
            writes,
        ).invitations.contains_key(id) && apply_all(tables, writes).invitations[id].resolved
            == 1,
        tables.users.contains_key(id) && tables.users[id].active == 1 ==> apply_all(
            tables,
            writes,
        ).users.contains_key(id) && apply_all(tables, writes).users[id].active == 1,
    decreases writes.len(),
{
    if writes.len() > 0 {
        lemma_flags_never_fall_back(tables, writes[0], id);
        lemma_flags_never_fall_back_all(apply(tables, writes[0]), writes.drop_first(), id);
    }
}

/// The writes that delete the group `group`: first every membership in it,
/// then the group itself.
pub open spec fn group_removal(group: Seq<char>) -> Seq<StoreWriteView> {
    seq![StoreWriteView::DeleteGroupLinks(group), StoreWriteView::DeleteGroup(group)]
}

/// The rows after two writes are the rows after the first, then the second.
pub proof fn lemma_apply_pair(tables: Tables, first: StoreWriteView, second: StoreWriteView)
    ensures
        apply_all(tables, seq![first, second]) == apply(apply(tables, first), second),
{
    let writes = seq![first, second];
    assert(writes.drop_first() =~= seq![second]);
    assert(writes.drop_first().drop_first() =~= Seq::<StoreWriteView>::empty());
    reveal_with_fuel(apply_all, 3);
}

/// Deleting a group leaves no membership without its group. Where every
/// membership had its group before, every membership has its group after
/// the first write of `group_removal` and after the second, and in the end
/// neither the group nor a membership in it is left. (The other order would
/// leave the group's memberships without a group in between.)
pub proof fn lemma_group_removal_keeps_links_anchored(tables: Tables, group: Seq<char>)
    requires
        tables.anchored(),
    ensures
        ({
            let unlinked = apply(tables, group_removal(group)[0]);
            let removed = apply_all(tables, group_removal(group));
            &&& unlinked.anchored()
            &&& !unlinked.has_links_into(group)
            &&& unlinked.groups == tables.groups
            &&& removed.anchored()
            &&& !removed.has_links_into(group)
            &&& !removed.groups.contains_key(group)
            &&& forall|user: Seq<char>| !removed.is_member(user, group)
        }),
{
    lemma_apply_pair(
        tables,
        StoreWriteView::DeleteGroupLinks(group),
        StoreWriteView::DeleteGroup(group),
    );
}

/// Joining makes a member, and leaving ends it: once a membership of `user`
/// in `group` has been added under an identifier that was free, the user is
/// a member; once the memberships of `user` in `group` have been removed,
/// the user is none, and every other membership is as it was.
pub proof fn lemma_join_and_leave(tables: Tables, link: GroupLinkView)
    ensures
        !tables.links.contains_key(link.id) ==> apply(
            tables,
            StoreWriteView::InsertGroupLink(link),
        ).is_member(link.user_id, link.group_id),
        !apply(
            tables,
            StoreWriteView::DeleteGroupLink { group_id: link.group_id, user_id: link.user_id },
        ).is_member(link.user_id, link.group_id),
        forall|user: Seq<char>, group: Seq<char>|
            !(user == link.user_id && group == link.group_id) ==> (#[trigger] apply(
                tables,
                StoreWriteView::DeleteGroupLink { group_id: link.group_id, user_id: link.user_id },
            ).is_member(user, group) <==> tables.is_member(user, group)),
{
    let joined = apply(tables, StoreWriteView::InsertGroupLink(link));
    if !tables.links.contains_key(link.id) {
        assert(joined.links.contains_key(link.id) && joined.links[link.id].group_id
            == link.group_id && joined.links[link.id].user_id == link.user_id);
    }
    let left = apply(
        tables,
        StoreWriteView::DeleteGroupLink { group_id: link.group_id, user_id: link.user_id },
    );
    assert forall|user: Seq<char>, group: Seq<char>|
        !(user == link.user_id && group == link.group_id) implies (left.is_member(user, group)
        <==> tables.is_member(user, group)) by {
        if tables.is_member(user, group) {
            let id = choose|id: Seq<char>|
                tables.links.contains_key(id) && (#[trigger] tables.links[id]).group_id == group
                    && tables.links[id].user_id == user;
            assert(left.links.contains_key(id) && left.links[id].group_id == group
                && left.links[id].user_id == user);
        }
        if left.is_member(user, group) {
            let id = choose|id: Seq<char>|
                left.links.contains_key(id) && (#[trigger] left.links[id]).group_id == group
                    && left.links[id].user_id == user;
            assert(tables.links.contains_key(id) && tables.links[id].group_id == group
                && tables.links[id].user_id == user);
        }
    }
}

} // verus!
