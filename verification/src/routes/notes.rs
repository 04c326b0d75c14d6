//! Reading, creating, changing and deleting notes.

use vstd::prelude::*;
use crate::access::{can_mutate_note, may_mutate, may_read, may_read_unshared};
use crate::clock::date_tag_instant;
use crate::errors::{resource_failure, ServiceError, StoreError};
use crate::ident::is_id_text;
use crate::models::{created_note, LoggedUser, NewNote, Note, NotePatch};
use crate::store::{loaded, planned, Planned, StoreWrite, StoreWriteView};

verus! {

/// What is said of a request that names a note which does not exist.
pub open spec fn no_such_note() -> Seq<char> {
    "Invalid note identifiers!"@
}

/// Answers a request for the notes of a principal. `notes` are the notes
/// that the store holds with the principal as their owner. A read that
/// failed is answered as `ServiceError::in_resource` says; otherwise the
/// answer is those notes.
pub fn get_user_notes(notes: Result<Vec<Note>, StoreError>) -> (r: Result<Vec<Note>, ServiceError>)
    ensures
        match notes {
            Ok(found) => r == Ok::<Vec<Note>, ServiceError>(found),
            Err(error) => r matches Err(refusal) && refusal@ == resource_failure(
                error,
                no_such_note(),
            ),
        },
{
    loaded(notes, "Invalid note identifiers!")
}

/// Answers a request for the public notes. `notes` are the notes that the
/// store holds with their public flag at 1. A read that failed is answered
/// as `ServiceError::in_resource` says; otherwise the answer is those notes.
/// No session is asked for.
pub fn get_public(notes: Result<Vec<Note>, StoreError>) -> (r: Result<Vec<Note>, ServiceError>)
    ensures
        match notes {
            Ok(found) => r == Ok::<Vec<Note>, ServiceError>(found),
            Err(error) => r matches Err(refusal) && refusal@ == resource_failure(
                error,
                no_such_note(),
            ),
        },
{
    loaded(notes, "Invalid note identifiers!")
}

/// The answer to a request for `note`, given whether the principal is a
/// member of the group it is shared with: the note where the principal may
/// read it, `Forbidden` where not.
pub fn note_access(user: &LoggedUser, note: Note, member: bool) -> (r: Result<Note, ServiceError>)
    ensures
        r == if may_read(user.id@, note@, member) {
            Ok::<Note, ServiceError>(note)
        } else {
            Err::<Note, ServiceError>(ServiceError::Forbidden)
        },
{
    if note.user_id == user.id || note.public == 1 {
        return Ok(note);
    }
    if note.group_id.is_some() && member {
        Ok(note)
    } else {
        Err(ServiceError::Forbidden)
    }
}

/// Answers a request for one note. `note` is what the store gave under the
/// identifier that was asked for. `membership_lookup` is asked whether the
/// principal is a member of the note's group, with the principal's
/// identifier and the group's, and only where the answer rests on it.
///
/// A read that failed, the first or the lookup, is answered as
/// `ServiceError::in_resource` says. The owner gets the note, and so does
/// anyone where it is public. Anyone else gets it where it is shared with a
/// group and the lookup finds them in it, and `Forbidden` otherwise.
pub fn get_note<L: Fn(&String, &String) -> Result<bool, StoreError>>(
    user: &LoggedUser,
    note: Result<Note, StoreError>,
    membership_lookup: &L,
) -> (r: Result<Note, ServiceError>)
    requires
        forall|group: &String| call_requires(*membership_lookup, (&user.id, group)),
    ensures
        match note {
            Err(error) => r matches Err(refusal) && refusal@ == resource_failure(
                error,
                no_such_note(),
            ),
            Ok(found) => if may_read_unshared(user.id@, found@) {
                r == Ok::<Note, ServiceError>(found)
            } else {
                match found.group_id {
                    None => r == Err::<Note, ServiceError>(ServiceError::Forbidden),
                    Some(group) => exists|answer: Result<bool, StoreError>|
                        {
                            &&& #[trigger] call_ensures(
                                *membership_lookup,
                                (&user.id, &group),
                                answer,
                            )
                            &&& match answer {
                                Ok(member) => r == if may_read(user.id@, found@, member) {
                                    Ok::<Note, ServiceError>(found)
                                } else {
                                    Err::<Note, ServiceError>(ServiceError::Forbidden)
                                },
                                Err(error) => r matches Err(refusal) && refusal@
                                    == resource_failure(error, no_such_note()),
                            }
                        },
                }
            },
        },
{
    let found = match loaded(note, "Invalid note identifiers!") {
        Ok(found) => found,
        Err(refusal) => {
            return Err(refusal);
        },
    };
    if found.user_id == user.id || found.public == 1 {
        return Ok(found);
    }
    let answer = match &found.group_id {
        Some(group) => membership_lookup(&user.id, group),
        None => {
            return Err(ServiceError::Forbidden);
        },
    };
    match loaded(answer, "Invalid note identifiers!") {
        Ok(member) => note_access(user, found, member),
        Err(refusal) => Err(refusal),
    }
}

/// Answers a request to change a note. `notes` are the rows that the store
/// holds under the identifier that was asked for; the last row counts.
///
/// A read that failed is answered as `ServiceError::in_resource` says, no
/// row as `BadRequest`, and a note of someone else as `Forbidden`: being a
/// member of its group gives no right to change it. The owner gets the one
/// write that applies `patch` to the note, without the owner that the patch
/// may name: a note stays with the user who created it. The reply is the
/// identifier of the note, to be read again once it is written.
pub fn update_note(user: &LoggedUser, notes: Result<Vec<Note>, StoreError>, patch: NotePatch) -> (r:
    Result<Planned<String>, ServiceError>)
    ensures
        match notes {
            Err(error) => r matches Err(refusal) && refusal@ == resource_failure(
                error,
                no_such_note(),
            ),
            Ok(found) => if found@.len() == 0 {
                r matches Err(ServiceError::BadRequest(message)) && message@ == no_such_note()
            } else if !may_mutate(user.id@, found@.last()@) {
                r == Err::<Planned<String>, ServiceError>(ServiceError::Forbidden)
            } else {
                &&& r matches Ok(plan)
                &&& plan.reply@ == found@.last().id@
                &&& plan.writes@.len() == 1
                &&& plan.writes@[0]@ == StoreWriteView::PatchNote(
                    found@.last().id@,
                    NotePatch { user_id: None, ..patch },
                )
            },
        },
{
    let mut found = match loaded(notes, "Invalid note identifiers!") {
        Ok(found) => found,
        Err(refusal) => {
            return Err(refusal);
        },
    };
    match found.pop() {
        Some(note) => {
            if !can_mutate_note(user, &note) {
                return Err(ServiceError::Forbidden);
            }
            let kept = NotePatch { user_id: None, ..patch };
            Ok(planned(note.id.clone(), StoreWrite::PatchNote(note.id, kept)))
        },
        None => Err(ServiceError::BadRequest("Invalid note identifiers!".to_owned())),
    }
}

/// Answers a request to delete a note. `note` is what the store gave under
/// the identifier that was asked for.
///
/// A read that failed is answered as `ServiceError::in_resource` says, and
/// a note of someone else as `Forbidden`. The owner gets the note back,
/// with the one write that removes it.
pub fn delete_note(user: &LoggedUser, note: Result<Note, StoreError>) -> (r: Result<
    Planned<Note>,
    ServiceError,
>)
    ensures
        match note {
            Err(error) => r matches Err(refusal) && refusal@ == resource_failure(
                error,
                no_such_note(),
            ),
            Ok(found) => if !may_mutate(user.id@, found@) {
                r == Err::<Planned<Note>, ServiceError>(ServiceError::Forbidden)
            } else {
                &&& r matches Ok(plan)
                &&& plan.reply == found
                &&& plan.writes@.len() == 1
                &&& plan.writes@[0]@ == StoreWriteView::DeleteNote(found.id@)
            },
        },
{
    let found = match loaded(note, "Invalid note identifiers!") {
        Ok(found) => found,
        Err(refusal) => {
            return Err(refusal);
        },
    };
    if !can_mutate_note(user, &found) {
        return Err(ServiceError::Forbidden);
    }
    let write = StoreWrite::DeleteNote(found.id.clone());
    Ok(planned(found, write))
}

/// Answers a request to create a note: the note of `user` made from what
/// was sent, under a new identifier, with the one write that adds it. Where
/// the date tag names no date and time the answer is `InternalServerError`.
pub fn insert(user: LoggedUser, note: NewNote) -> (r: Result<Planned<Note>, ServiceError>)
    ensures
        match date_tag_instant(note.date_tag@) {
            None => r == Err::<Planned<Note>, ServiceError>(ServiceError::InternalServerError),
            Some(date_tag) => {
                &&& r matches Ok(plan)
                &&& is_id_text(plan.reply.id@)
                &&& plan.reply@ == created_note(plan.reply.id@, note, user.id@, date_tag as int)
                &&& plan.writes@.len() == 1
                &&& plan.writes@[0]@ == StoreWriteView::InsertNote(plan.reply@)
            },
        },
{
    match Note::try_from(note, user) {
        Some(made) => {
            let write = StoreWrite::InsertNote(made.clone());
            Ok(planned(made, write))
        },
        None => Err(ServiceError::InternalServerError),
    }
}

} // verus!
