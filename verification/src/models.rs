//! The rows of the service and the values that requests carry.

use vstd::prelude::*;
use crate::clock::{date_tag_instant, is_instant, local_now, parse_date_tag, utc_now};
use crate::errors::ServiceError;
use crate::ident::{fresh_id, is_id_text};
use crate::routes::auth::hash_password;

verus! {

/// How long an invitation stays open, in seconds: twenty-four hours.
pub const INVITATION_LIFETIME: i64 = 86_400;

/// An account. `active` is 0 until the invitation has been confirmed and 1
/// from then on; `password` holds a hash, never the plaintext.
#[derive(Debug, PartialEq, Eq)]
pub struct User {
    pub id: String,
    pub name: String,
    pub email: String,
    pub password: String,
    pub active: i32,
}

/// A `User` over sequences of characters.
pub struct UserView {
    pub id: Seq<char>,
    pub name: Seq<char>,
    pub email: Seq<char>,
    pub password: Seq<char>,
    pub active: int,
}

impl View for User {
    type V = UserView;

    open spec fn view(&self) -> UserView {
        UserView {
            id: self.id@,
            name: self.name@,
            email: self.email@,
            password: self.password@,
            active: self.active as int,
        }
    }
}

impl Clone for User {
    fn clone(&self) -> (r: Self)
        ensures
            r == *self,
    {
        User {
            id: self.id.clone(),
            name: self.name.clone(),
            email: self.email.clone(),
            password: self.password.clone(),
            active: self.active,
        }
    }
}

/// The account that a registration creates: not yet active.
pub open spec fn pending_user(
    id: Seq<char>,
    name: Seq<char>,
    email: Seq<char>,
    password_hash: Seq<char>,
) -> UserView {
    UserView { id, name, email, password: password_hash, active: 0 }
}

/// The account `user` once its invitation has been confirmed.
pub open spec fn activated(user: UserView) -> UserView {
    UserView { active: 1, ..user }
}

impl User {
    /// The pending account of `user` under the identifier `id`, with
    /// `password_hash` in place of the password.
    pub fn pending(id: String, user: NewUser, password_hash: String) -> (r: Self)
        ensures
            r@ == pending_user(id@, user.name@, user.email@, password_hash@),
    {
        User { id, name: user.name, email: user.email, password: password_hash, active: 0 }
    }

    /// Creates the pending account of `user`: draws an identifier and has
    /// `hasher` hash the password with `secret_key`. Fails with
    /// `InternalServerError` where the hasher fails, and only then.
    pub fn from<H: Fn(&String, &String) -> Option<String>>(
        user: NewUser,
        secret_key: &String,
        hasher: &H,
    ) -> (r: Result<Self, ServiceError>)
        requires
            call_requires(*hasher, (&user.password, secret_key)),
        ensures
            exists|hashed: Option<String>|
                {
                    &&& #[trigger] call_ensures(
                        *hasher,
                        (&user.password, secret_key),
                        hashed,
                    )
                    &&& match hashed {
                        Some(hash) => r matches Ok(created) && is_id_text(created.id@)
                            && created@ == pending_user(
                            created.id@,
                            user.name@,
                            user.email@,
                            hash@,
                        ),
                        None => r matches Err(ServiceError::InternalServerError),
                    }
                },
    {
        match hash_password(&user.password, secret_key, hasher) {
            Ok(hash) => Ok(User::pending(fresh_id(), user, hash)),
            Err(error) => Err(error),
        }
    }

    /// The account with its activation flag set.
    pub fn activate(self) -> (r: Self)
        ensures
            r@ == activated(self@),
    {
        User { active: 1, ..self }
    }
}

/// What a visitor sends to register.
#[derive(Debug, PartialEq, Eq)]
pub struct NewUser {
    pub name: String,
    pub email: String,
    pub password: String,
}

/// The principal of a session: what of a `User` is safe to show. It carries
/// neither the password hash nor the activation flag.
#[derive(Debug, PartialEq, Eq)]
pub struct LoggedUser {
    pub id: String,
    pub name: String,
    pub email: String,
}

/// A `LoggedUser` over sequences of characters.
pub struct LoggedUserView {
    pub id: Seq<char>,
    pub name: Seq<char>,
    pub email: Seq<char>,
}

impl View for LoggedUser {
    type V = LoggedUserView;

    open spec fn view(&self) -> LoggedUserView {
        LoggedUserView { id: self.id@, name: self.name@, email: self.email@ }
    }
}

impl Clone for LoggedUser {
    fn clone(&self) -> (r: Self)
        ensures
            r == *self,
    {
        LoggedUser { id: self.id.clone(), name: self.name.clone(), email: self.email.clone() }
    }
}

/// The principal that stands for the account `user`.
pub open spec fn principal_of(user: UserView) -> LoggedUserView {
    LoggedUserView { id: user.id, name: user.name, email: user.email }
}

impl LoggedUser {
    /// Reduces an account to its principal.
    pub fn from(user: User) -> (r: Self)
        ensures
            r@ == principal_of(user@),
    {
        LoggedUser { id: user.id, name: user.name, email: user.email }
    }

    /// As `from`, leaving the account with the caller.
    pub fn from_user(user: &User) -> (r: Self)
        ensures
            r@ == principal_of(user@),
    {
        LoggedUser { id: user.id.clone(), name: user.name.clone(), email: user.email.clone() }
    }
}

/// A capability to activate one account: its `id` is the token that the
/// confirmation link carries. `expires_at` is in whole seconds; `resolved` is
/// 0 while the invitation is open and 1 once it has been used.
#[derive(Debug, PartialEq, Eq)]
pub struct Invitation {
    pub id: String,
    pub email: String,
    pub expires_at: i64,
    pub resolved: i32,
}

/// An `Invitation` over sequences of characters.
pub struct InvitationView {
    pub id: Seq<char>,
    pub email: Seq<char>,
    pub expires_at: int,
    pub resolved: int,
}

impl View for Invitation {
    type V = InvitationView;

    open spec fn view(&self) -> InvitationView {
        InvitationView {
            id: self.id@,
            email: self.email@,
            expires_at: self.expires_at as int,
            resolved: self.resolved as int,
        }
    }
}

impl Clone for Invitation {
    fn clone(&self) -> (r: Self)
        ensures
            r == *self,
    {
        Invitation {
            id: self.id.clone(),
            email: self.email.clone(),
            expires_at: self.expires_at,
            resolved: self.resolved,
        }
    }
}

/// The invitation that is issued at the instant `now`: open, and good for
/// twenty-four hours.
pub open spec fn opened_invitation(id: Seq<char>, email: Seq<char>, now: int) -> InvitationView {
    InvitationView { id, email, expires_at: now + INVITATION_LIFETIME as int, resolved: 0 }
}

/// Whether `invitation` can still be used at the instant `now`: it has not
/// been used, and `now` is before its expiry.
pub open spec fn is_open(invitation: InvitationView, now: int) -> bool {
    invitation.resolved == 0 && invitation.expires_at > now
}

/// The invitation once it has been used.
pub open spec fn resolved(invitation: InvitationView) -> InvitationView {
    InvitationView { resolved: 1, ..invitation }
}

impl Invitation {
    /// The invitation with the identifier `id` that is issued to `email` at
    /// the instant `now`.
    pub fn opened(id: String, email: String, now: i64) -> (r: Self)
        requires
            now + INVITATION_LIFETIME <= i64::MAX,
        ensures
            r@ == opened_invitation(id@, email@, now as int),
    {
        Invitation { id, email, expires_at: now + INVITATION_LIFETIME, resolved: 0 }
    }

    /// Issues an invitation to `email`: draws an identifier and reads the
    /// local clock.
    pub fn from_email(email: String) -> (r: Self)
        ensures
            is_id_text(r.id@),
            is_instant(r.expires_at - INVITATION_LIFETIME),
            r@ == opened_invitation(r.id@, email@, r.expires_at - INVITATION_LIFETIME),
    {
        let now = local_now();
        Invitation::opened(fresh_id(), email, now)
    }

    /// Issues an invitation to the address of `user`.
    pub fn from_user(user: &User) -> (r: Self)
        ensures
            is_id_text(r.id@),
            is_instant(r.expires_at - INVITATION_LIFETIME),
            r@ == opened_invitation(r.id@, user.email@, r.expires_at - INVITATION_LIFETIME),
    {
        Invitation::from_email(user.email.clone())
    }

    /// Whether the invitation can still be used at the instant `now`.
    pub fn is_open(&self, now: i64) -> (r: bool)
        ensures
            r == is_open(self@, now as int),
    {
        self.resolved == 0 && self.expires_at > now
    }

    /// Marks the invitation as used. Whether it was open is for the caller
    /// to have asked.
    pub fn resolve(self) -> (r: Self)
        ensures
            r@ == resolved(self@),
    {
        Invitation { resolved: 1, ..self }
    }
}

/// The view of an optional string.
pub open spec fn text_of(value: Option<String>) -> Option<Seq<char>> {
    match value {
        Some(text) => Some(text@),
        None => None,
    }
}

/// A copy of an optional string.
fn copy_text(value: &Option<String>) -> (r: Option<String>)
    ensures
        r == *value,
{
    match value {
        Some(text) => Some(text.clone()),
        None => None,
    }
}

/// A note. It belongs to `user_id`; `public` is 1 where everyone may read
/// it; `group_id`, where set, shares it with the members of that group.
/// `date_tag` is in whole seconds.
#[derive(Debug, PartialEq, Eq)]
pub struct Note {
    pub id: String,
    pub group_id: Option<String>,
    pub user_id: String,
    pub title: String,
    pub date_tag: i64,
    pub body: String,
    pub public: i32,
    pub pinned: i32,
}

/// A `Note` over sequences of characters.
pub struct NoteView {
    pub id: Seq<char>,
    pub group_id: Option<Seq<char>>,
    pub user_id: Seq<char>,
    pub title: Seq<char>,
    pub date_tag: int,
    pub body: Seq<char>,
    pub public: int,
    pub pinned: int,
}

impl View for Note {
    type V = NoteView;

    open spec fn view(&self) -> NoteView {
        NoteView {
            id: self.id@,
            group_id: text_of(self.group_id),
            user_id: self.user_id@,
            title: self.title@,
            date_tag: self.date_tag as int,
            body: self.body@,
            public: self.public as int,
            pinned: self.pinned as int,
        }
    }
}

impl Clone for Note {
    fn clone(&self) -> (r: Self)
        ensures
            r == *self,
    {
        Note {
            id: self.id.clone(),
            group_id: copy_text(&self.group_id),
            user_id: self.user_id.clone(),
            title: self.title.clone(),
            date_tag: self.date_tag,
            body: self.body.clone(),
            public: self.public,
            pinned: self.pinned,
        }
    }
}

/// The note that `owner` creates from what was sent, under the identifier
/// `id` and with the date tag read as `date_tag`.
pub open spec fn created_note(
    id: Seq<char>,
    note: NewNote,
    owner: Seq<char>,
    date_tag: int,
) -> NoteView {
    NoteView {
        id,
        group_id: text_of(note.group_id),
        user_id: owner,
        title: note.title@,
        date_tag,
        body: note.body@,
        public: note.public as int,
        pinned: note.pinned as int,
    }
}

impl Note {
    /// The note that `user` creates from `note`, under the identifier `id`
    /// and with the date tag read as `date_tag`.
    pub fn created(id: String, note: NewNote, user: LoggedUser, date_tag: i64) -> (r: Self)
        ensures
            r@ == created_note(id@, note, user.id@, date_tag as int),
    {
        Note {
            id,
            group_id: note.group_id,
            user_id: user.id,
            title: note.title,
            date_tag,
            body: note.body,
            public: note.public,
            pinned: note.pinned,
        }
    }

    /// Creates the note of `user` from what was sent, drawing an identifier.
    /// The date tag must be text that names a date and time.
    pub fn from(note: NewNote, user: LoggedUser) -> (r: Self)
        requires
            date_tag_instant(note.date_tag@) is Some,
        ensures
            is_id_text(r.id@),
            r@ == created_note(
                r.id@,
                note,
                user.id@,
                date_tag_instant(note.date_tag@)->Some_0 as int,
            ),
    {
        let date_tag = parse_date_tag(note.date_tag.as_str()).unwrap();
        Note::created(fresh_id(), note, user, date_tag)
    }

    /// As `from`, for any date tag: `None` where its text names no date and
    /// time.
    pub fn try_from(note: NewNote, user: LoggedUser) -> (r: Option<Self>)
        ensures
            match date_tag_instant(note.date_tag@) {
                Some(date_tag) => r matches Some(made) && is_id_text(made.id@) && made@
                    == created_note(made.id@, note, user.id@, date_tag as int),
                None => r is None,
            },
    {
        match parse_date_tag(note.date_tag.as_str()) {
            Some(_) => Some(Note::from(note, user)),
            None => None,
        }
    }
}

/// What a principal sends to create a note. `date_tag` is text of the form
/// `2024-05-17 08:30:00`.
#[derive(Debug, PartialEq, Eq)]
pub struct NewNote {
    pub title: String,
    pub group_id: Option<String>,
    pub date_tag: String,
    pub body: String,
    pub public: i32,
    pub pinned: i32,
}

/// The changes that an owner asks for on a note: a field that is `None`
/// stays as it is.
#[derive(Debug, PartialEq, Eq)]
pub struct NotePatch {
    pub user_id: Option<String>,
    pub group_id: Option<String>,
    pub title: Option<String>,
    pub date_tag: Option<String>,
    pub body: Option<String>,
    pub public: Option<i32>,
    pub pinned: Option<i32>,
}

/// A named collection of users. `created_at` is in whole seconds.
#[derive(Debug, PartialEq, Eq)]
pub struct Group {
    pub id: String,
    pub created_at: i64,
    pub created_by: String,
    pub name: String,
    pub color: String,
}

/// A `Group` over sequences of characters.
pub struct GroupView {
    pub id: Seq<char>,
    pub created_at: int,
    pub created_by: Seq<char>,
    pub name: Seq<char>,
    pub color: Seq<char>,
}

impl View for Group {
    type V = GroupView;

    open spec fn view(&self) -> GroupView {
        GroupView {
            id: self.id@,
            created_at: self.created_at as int,
            created_by: self.created_by@,
            name: self.name@,
            color: self.color@,
        }
    }
}

impl Clone for Group {
    fn clone(&self) -> (r: Self)
        ensures
            r == *self,
    {
        Group {
            id: self.id.clone(),
            created_at: self.created_at,
            created_by: self.created_by.clone(),
            name: self.name.clone(),
            color: self.color.clone(),
        }
    }
}

/// The group that `creator` creates at the instant `now`.
pub open spec fn created_group(
    id: Seq<char>,
    group: NewGroup,
    creator: Seq<char>,
    now: int,
) -> GroupView {
    GroupView { id, created_at: now, created_by: creator, name: group.name@, color: group.color@ }
}

impl Group {
    /// The group that `user` creates from `group` at the instant `now`,
    /// under the identifier `id`.
    pub fn created(id: String, group: NewGroup, user: LoggedUser, now: i64) -> (r: Self)
        ensures
            r@ == created_group(id@, group, user.id@, now as int),
    {
        Group { id, created_at: now, created_by: user.id, name: group.name, color: group.color }
    }

    /// Creates the group of `user` from what was sent: draws an identifier
    /// and reads the clock in UTC.
    pub fn from(group: NewGroup, user: LoggedUser) -> (r: Self)
        ensures
            is_id_text(r.id@),
            is_instant(r.created_at as int),
            r@ == created_group(r.id@, group, user.id@, r.created_at as int),
    {
        let now = utc_now();
        Group::created(fresh_id(), group, user, now)
    }
}

/// What a principal sends to create a group.
#[derive(Debug, PartialEq, Eq)]
pub struct NewGroup {
    pub color: String,
    pub name: String,
}

/// One membership: `user_id` belongs to `group_id`.
#[derive(Debug, PartialEq, Eq)]
pub struct GroupLink {
    pub id: String,
    pub user_id: String,
    pub group_id: String,
}

/// A `GroupLink` over sequences of characters.
pub struct GroupLinkView {
    pub id: Seq<char>,
    pub user_id: Seq<char>,
    pub group_id: Seq<char>,
}

impl View for GroupLink {
    type V = GroupLinkView;

    open spec fn view(&self) -> GroupLinkView {
        GroupLinkView { id: self.id@, user_id: self.user_id@, group_id: self.group_id@ }
    }
}

impl Clone for GroupLink {
    fn clone(&self) -> (r: Self)
        ensures
            r == *self,
    {
        GroupLink {
            id: self.id.clone(),
            user_id: self.user_id.clone(),
            group_id: self.group_id.clone(),
        }
    }
}

impl GroupLink {
    /// The membership of `user` in `group`, under the identifier `id`.
    pub fn joining(id: String, group: &Group, user: &LoggedUser) -> (r: Self)
        ensures
            r@ == (GroupLinkView { id: id@, user_id: user.id@, group_id: group.id@ }),
    {
        GroupLink { id, group_id: group.id.clone(), user_id: user.id.clone() }
    }

    /// Creates the membership of `user` in `group`, drawing an identifier.
    pub fn from(group: &Group, user: &LoggedUser) -> (r: Self)
        ensures
            is_id_text(r.id@),
            r.user_id@ == user.id@,
            r.group_id@ == group.id@,
    {
        GroupLink::joining(fresh_id(), group, user)
    }
}

} // verus!
