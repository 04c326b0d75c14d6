//! Registration, confirmation, sign-in and sign-out.

use vstd::prelude::*;
use vstd::string::StringExecFns;
use crate::clock::{is_instant, local_now};
use crate::errors::{auth_failure, outcome_view, ServiceError, ServiceErrorView, StoreError};
use crate::ident::is_id_text;
use crate::models::{
    is_open, opened_invitation, pending_user, principal_of, Invitation, InvitationView,
    LoggedUser, LoggedUserView, NewUser, User, UserView, INVITATION_LIFETIME,
};
use crate::session::{revoke, sign_in, signed_in, SessionCommand, SignedIn, SignedInView};
use crate::store::{
    apply_all, lemma_apply_pair, lemma_flags_never_fall_back_all, views_of, StoreWrite,
    StoreWriteView, Tables,
};

verus! {

/// What hashing a password comes to: the hash, or an internal error where
/// the hasher failed.
pub open spec fn hashing_of(hashed: Option<String>) -> Result<String, ServiceError> {
    match hashed {
        Some(hash) => Ok(hash),
        None => Err(ServiceError::InternalServerError),
    }
}

/// What checking a password comes to: whether it matched, or `Unauthorized`
/// where the stored hash could not be checked at all.
pub open spec fn verification_of(verdict: Option<bool>) -> Result<bool, ServiceError> {
    match verdict {
        Some(matching) => Ok(matching),
        None => Err(ServiceError::Unauthorized),
    }
}

/// Hashes `password` with `secret_key`. The keyed, memory-hard hash itself
/// is `hasher`, which is handed the password and the key and returns `None`
/// where it fails.
pub fn hash_password<H: Fn(&String, &String) -> Option<String>>(
    password: &String,
    secret_key: &String,
    hasher: &H,
) -> (r: Result<String, ServiceError>)
    requires
        call_requires(*hasher, (password, secret_key)),
    ensures
        exists|hashed: Option<String>|
            #[trigger] call_ensures(*hasher, (password, secret_key), hashed) && r == hashing_of(
                hashed,
            ),
{
    match hasher(password, secret_key) {
        Some(hash) => Ok(hash),
        None => Err(ServiceError::InternalServerError),
    }
}

/// Checks `password` against the stored `hash` under `secret_key`. The
/// check itself is `verifier`, which is handed the hash, the password and
/// the key and returns `None` where the hash cannot be read.
pub fn verify<V: Fn(&String, &String, &String) -> Option<bool>>(
    hash: &String,
    password: &String,
    secret_key: &String,
    verifier: &V,
) -> (r: Result<bool, ServiceError>)
    requires
        call_requires(*verifier, (hash, password, secret_key)),
    ensures
        exists|verdict: Option<bool>|
            #[trigger] call_ensures(*verifier, (hash, password, secret_key), verdict) && r
                == verification_of(verdict),
{
    match verifier(hash, password, secret_key) {
        Some(matching) => Ok(matching),
        None => Err(ServiceError::Unauthorized),
    }
}

/// Whether `verifier` accepts what `hasher` makes: whatever hash the hasher
/// gives for a password under a key, the verifier finds to match that
/// password under that key.
pub open spec fn verifier_accepts_own<
    H: Fn(&String, &String) -> Option<String>,
    V: Fn(&String, &String, &String) -> Option<bool>,
>(hasher: H, verifier: V) -> bool {
    forall|password: &String, again: &String, key: &String, hash: String, verdict: Option<bool>|
        #[trigger] call_ensures(hasher, (password, key), Some(hash)) && #[trigger] call_ensures(
            verifier,
            (&hash, again, key),
            verdict,
        ) && again@ == password@ ==> verdict == Some(true)
}

/// Whether `verifier` rejects every other password: whatever hash the hasher
/// gives for a password under a key, the verifier finds not to match a
/// different password under that key.
pub open spec fn verifier_rejects_others<
    H: Fn(&String, &String) -> Option<String>,
    V: Fn(&String, &String, &String) -> Option<bool>,
>(hasher: H, verifier: V) -> bool {
    forall|password: &String, other: &String, key: &String, hash: String, verdict: Option<bool>|
        #[trigger] call_ensures(hasher, (password, key), Some(hash)) && #[trigger] call_ensures(
            verifier,
            (&hash, other, key),
            verdict,
        ) && other@ != password@ ==> verdict == Some(false)
}

/// Hashing and checking pass on what the hasher and the verifier say, so a
/// law of theirs is a law of `hash_password` and `verify`. Let `hashed` be
/// what `hash_password` returned for `password`, and `checked` what `verify`
/// returned for that hash and `tried`, under the same key. Where the
/// verifier accepts what the hasher makes and `tried` is the password,
/// `checked` is `Ok(true)`; where the verifier rejects every other password
/// and `tried` is another, `checked` is `Ok(false)`. Whether the hasher and
/// the verifier in use are such a pair is theirs to keep: nothing here shows
/// it.
pub proof fn lemma_hash_then_verify<
    H: Fn(&String, &String) -> Option<String>,
    V: Fn(&String, &String, &String) -> Option<bool>,
>(
    hasher: &H,
    verifier: &V,
    password: &String,
    tried: &String,
    key: &String,
    hashed: Result<String, ServiceError>,
    checked: Result<bool, ServiceError>,
)
    requires
        call_ensures(hash_password::<H>, (password, key, hasher), hashed),
        hashed is Ok,
        call_ensures(verify::<V>, (&hashed->Ok_0, tried, key, verifier), checked),
    ensures
        verifier_accepts_own(*hasher, *verifier) && tried@ == password@ ==> checked == Ok::<
            bool,
            ServiceError,
        >(true),
        verifier_rejects_others(*hasher, *verifier) && tried@ != password@ ==> checked == Ok::<
            bool,
            ServiceError,
        >(false),
{
}

/// An address and a password, as sent to sign in or to confirm.
#[derive(Debug, PartialEq, Eq)]
pub struct AuthData {
    pub email: String,
    pub password: String,
}

/// The mail that carries the confirmation link.
#[derive(Debug, PartialEq, Eq)]
pub struct ConfirmationMail {
    pub to: String,
    pub subject: String,
    pub body: String,
}

/// What a registration comes to: the invitation that answers the request,
/// the rows to write, and the mail to send once they are written.
#[derive(Debug, PartialEq, Eq)]
pub struct Registration {
    pub invitation: Invitation,
    pub writes: Vec<StoreWrite>,
    pub mail: ConfirmationMail,
}

/// What an accepted confirmation comes to: the principal that answers the
/// request, and the rows to write. The two writes belong in one transaction.
#[derive(Debug, PartialEq, Eq)]
pub struct Confirmation {
    pub principal: LoggedUser,
    pub writes: Vec<StoreWrite>,
}

/// A `Confirmation` over the views of its principal and its writes.
pub struct ConfirmationView {
    pub principal: LoggedUserView,
    pub writes: Seq<StoreWriteView>,
}

impl View for Confirmation {
    type V = ConfirmationView;

    open spec fn view(&self) -> ConfirmationView {
        ConfirmationView { principal: self.principal@, writes: views_of(self.writes@) }
    }
}

/// Whether `registration` is the registration that creates the account
/// `user` and the invitation `invitation`: it adds the account, then the
/// invitation, answers with the invitation, and mails to the account's
/// address the link made of `frontend_address`, `confirmation_path` and the
/// invitation's identifier.
pub open spec fn is_registration_of(
    registration: Registration,
    user: UserView,
    invitation: InvitationView,
    frontend_address: Seq<char>,
    confirmation_path: Seq<char>,
) -> bool {
    &&& registration.invitation@ == invitation
    &&& registration.writes@.len() == 2
    &&& registration.writes@[0]@ == StoreWriteView::InsertUser(user)
    &&& registration.writes@[1]@ == StoreWriteView::InsertInvitation(invitation)
    &&& registration.mail.to@ == user.email
    &&& registration.mail.subject@ == "Confirm registration for InnoReserve"@
    &&& registration.mail.body@ == frontend_address + confirmation_path + invitation.id
}

/// Puts a registration together from the two rows that it creates.
pub fn registration(
    user: User,
    invitation: Invitation,
    frontend_address: &String,
    confirmation_path: &String,
) -> (r: Registration)
    ensures
        is_registration_of(r, user@, invitation@, frontend_address@, confirmation_path@),
        r.invitation == invitation,
{
    let mail = ConfirmationMail {
        to: user.email.clone(),
        subject: "Confirm registration for InnoReserve".to_owned(),
        body: frontend_address.clone().concat(confirmation_path.as_str()).concat(
            invitation.id.as_str(),
        ),
    };
    let mut writes: Vec<StoreWrite> = Vec::new();
    writes.push(StoreWrite::InsertUser(user));
    writes.push(StoreWrite::InsertInvitation(invitation.clone()));
    Registration { invitation, writes, mail }
}

/// Registers `new_user`: creates the pending account with the password
/// hashed by `hasher` under `secret_key`, issues an invitation to its
/// address that is good for twenty-four hours from now by the local clock,
/// and writes the mail with the confirmation link. Whether the address is
/// already taken is for the store to say when the rows are written. Fails
/// with `InternalServerError` where the hasher fails, and only then.
pub fn register<H: Fn(&String, &String) -> Option<String>>(
    new_user: NewUser,
    secret_key: &String,
    frontend_address: &String,
    confirmation_path: &String,
    hasher: &H,
) -> (r: Result<Registration, ServiceError>)
    requires
        call_requires(*hasher, (&new_user.password, secret_key)),
    ensures
        exists|hashed: Option<String>|
            {
                &&& #[trigger] call_ensures(*hasher, (&new_user.password, secret_key), hashed)
                &&& match hashed {
                    Some(hash) => {
                        &&& r matches Ok(made)
                        &&& is_id_text(made.invitation.id@)
                        &&& exists|id: Seq<char>, now: int|
                            {
                                &&& is_id_text(id)
                                &&& is_instant(now)
                                &&& #[trigger] is_registration_of(
                                    made,
                                    pending_user(id, new_user.name@, new_user.email@, hash@),
                                    opened_invitation(made.invitation.id@, new_user.email@, now),
                                    frontend_address@,
                                    confirmation_path@,
                                )
                            }
                    },
                    None => r matches Err(ServiceError::InternalServerError),
                }
            },
{
    match User::from(new_user, secret_key, hasher) {
        Ok(user) => {
            let invitation = Invitation::from_user(&user);
            let ghost id = user.id@;
            let ghost now = invitation.expires_at - INVITATION_LIFETIME;
            let made = registration(user, invitation, frontend_address, confirmation_path);
            proof {
                assert(is_id_text(id) && is_instant(now) && is_registration_of(
                    made,
                    pending_user(id, new_user.name@, new_user.email@, user.password@),
                    opened_invitation(made.invitation.id@, new_user.email@, now),
                    frontend_address@,
                    confirmation_path@,
                ));
            }
            Ok(made)
        },
        Err(error) => Err(error),
    }
}

/// Whether a confirmation is accepted: the password matched, and the
/// invitation is unused and not out of date at the instant `now`.
pub open spec fn is_confirmed(invitation: InvitationView, verdict: Option<bool>, now: int) -> bool {
    verdict == Some(true) && is_open(invitation, now)
}

/// What a confirmation comes to, given the account, the invitation, what
/// the check of the password said and the instant `now`. Where it is
/// accepted, the account is activated and the invitation marked as used;
/// in every other case the answer is `Unauthorized`, whatever the reason.
pub open spec fn confirmation_outcome(
    user: UserView,
    invitation: InvitationView,
    verdict: Option<bool>,
    now: int,
) -> Result<ConfirmationView, ServiceErrorView> {
    if is_confirmed(invitation, verdict, now) {
        Ok(
            ConfirmationView {
                principal: principal_of(user),
                writes: seq![
                    StoreWriteView::ActivateUser(user.id),
                    StoreWriteView::ResolveInvitation(invitation.id),
                ],
            },
        )
    } else {
        Err(ServiceErrorView::Unauthorized)
    }
}

/// Decides a confirmation from what was loaded and checked.
pub fn confirmation(user: &User, invitation: &Invitation, verdict: Option<bool>, now: i64) -> (r:
    Result<Confirmation, ServiceError>)
    ensures
        outcome_view(r) == confirmation_outcome(user@, invitation@, verdict, now as int),
{
    let matching = match verdict {
        Some(matching) => matching,
        None => false,
    };
    if matching && invitation.is_open(now) {
        let mut writes: Vec<StoreWrite> = Vec::new();
        writes.push(StoreWrite::ActivateUser(user.id.clone()));
        writes.push(StoreWrite::ResolveInvitation(invitation.id.clone()));
        let made = Confirmation { principal: LoggedUser::from_user(user), writes };
        assert(views_of(made.writes@) =~= seq![
            StoreWriteView::ActivateUser(user.id@),
            StoreWriteView::ResolveInvitation(invitation.id@),
        ]);
        Ok(made)
    } else {
        Err(ServiceError::Unauthorized)
    }
}

/// Confirms a registration. `users` are the accounts that the store holds
/// under the address in `data`, `invitations` the invitations under the
/// identifier that the link carried; of each, the last row counts. The
/// password in `data` is checked against the account's hash by `verifier`
/// under `secret_key`, and the invitation against the local clock.
///
/// A read that failed is answered as `ServiceError::in_auth` says. Without
/// an account or without an invitation the answer is `Unauthorized`, and
/// the verifier is not asked. Otherwise the answer is what `confirmation`
/// makes of the verifier's verdict and the clock.
pub fn confirm_registration<V: Fn(&String, &String, &String) -> Option<bool>>(
    data: AuthData,
    users: Result<Vec<User>, StoreError>,
    invitations: Result<Vec<Invitation>, StoreError>,
    secret_key: &String,
    verifier: &V,
) -> (r: Result<Confirmation, ServiceError>)
    requires
        forall|hash: &String| call_requires(*verifier, (hash, &data.password, secret_key)),
    ensures
        match (users, invitations) {
            (Err(error), _) => outcome_view(r) == Err::<ConfirmationView, ServiceErrorView>(
                auth_failure(error),
            ),
            (Ok(_), Err(error)) => outcome_view(r) == Err::<ConfirmationView, ServiceErrorView>(
                auth_failure(error),
            ),
            (Ok(found), Ok(invited)) => if found@.len() == 0 || invited@.len() == 0 {
                r matches Err(ServiceError::Unauthorized)
            } else {
                exists|verdict: Option<bool>, now: int|
                    {
                        &&& #[trigger] call_ensures(
                            *verifier,
                            (&found@.last().password, &data.password, secret_key),
                            verdict,
                        )
                        &&& is_instant(now)
                        &&& outcome_view(r) == #[trigger] confirmation_outcome(
                            found@.last()@,
                            invited@.last()@,
                            verdict,
                            now,
                        )
                    }
            },
        },
{
    let mut found = match users {
        Ok(found) => found,
        Err(error) => {
            return Err(ServiceError::in_auth(error));
        },
    };
    let mut invited = match invitations {
        Ok(invited) => invited,
        Err(error) => {
            return Err(ServiceError::in_auth(error));
        },
    };
    let user = match found.pop() {
        Some(user) => user,
        None => {
            return Err(ServiceError::Unauthorized);
        },
    };
    let invitation = match invited.pop() {
        Some(invitation) => invitation,
        None => {
            return Err(ServiceError::Unauthorized);
        },
    };
    let verdict = verifier(&user.password, &data.password, secret_key);
    let now = local_now();
    let decided = confirmation(&user, &invitation, verdict, now);
    proof {
        let found_before = users->Ok_0@;
        let invited_before = invitations->Ok_0@;
        assert(user == found_before.last());
        assert(invitation == invited_before.last());
        assert(call_ensures(
            *verifier,
            (&found_before.last().password, &data.password, secret_key),
            verdict,
        ));
        assert(outcome_view(decided) == confirmation_outcome(
            found_before.last()@,
            invited_before.last()@,
            verdict,
            now as int,
        ));
    }
    decided
}

/// The answer to a confirmation once its writes have been tried: where the
/// store made them, the principal, signed in. Where it reports that the
/// invitation was no longer open when it came to mark it, the answer is
/// `Unauthorized`: of two confirmations that race for one invitation, the
/// second is refused like any other late one. Any other failure is an
/// internal error.
pub fn confirmed(done: Confirmation, written: Result<(), StoreError>) -> (r: Result<
    SignedIn,
    ServiceError,
>)
    ensures
        match written {
            Ok(_) => r matches Ok(made) && made@ == signed_in(done.principal@),
            Err(error) => r matches Err(refusal) && refusal@ == auth_failure(error),
        },
{
    match written {
        Ok(_) => Ok(sign_in(done.principal)),
        Err(error) => Err(ServiceError::in_auth(error)),
    }
}

/// What a sign-in comes to, given the account and what the check of the
/// password said: where it matched, the account's principal with a session
/// issued for them; `Unauthorized` where it did not match or could not be
/// checked.
pub open spec fn login_outcome(user: UserView, verdict: Option<bool>) -> Result<
    SignedInView,
    ServiceErrorView,
> {
    if verdict == Some(true) {
        Ok(signed_in(principal_of(user)))
    } else {
        Err(ServiceErrorView::Unauthorized)
    }
}

/// Decides a sign-in from the account and the verdict on the password.
pub fn login_decision(user: &User, verdict: Option<bool>) -> (r: Result<SignedIn, ServiceError>)
    ensures
        outcome_view(r) == login_outcome(user@, verdict),
{
    match verdict {
        Some(true) => Ok(sign_in(LoggedUser::from_user(user))),
        _ => Err(ServiceError::Unauthorized),
    }
}

/// Signs a principal in. `users` are the accounts that the store holds
/// under the address in `auth_data`; the last row counts. Its hash is
/// checked by `verifier` under `secret_key`.
///
/// A read that failed is answered as `ServiceError::in_auth` says. Without
/// an account the answer is `Unauthorized`, and the verifier is not asked.
/// Otherwise the answer is what `login_decision` makes of the verdict.
/// Where the password matched, that is the principal together with the
/// command that issues their session.
pub fn login<V: Fn(&String, &String, &String) -> Option<bool>>(
    auth_data: AuthData,
    users: Result<Vec<User>, StoreError>,
    secret_key: &String,
    verifier: &V,
) -> (r: Result<SignedIn, ServiceError>)
    requires
        forall|hash: &String| call_requires(*verifier, (hash, &auth_data.password, secret_key)),
    ensures
        match users {
            Err(error) => outcome_view(r) == Err::<SignedInView, ServiceErrorView>(
                auth_failure(error),
            ),
            Ok(found) => if found@.len() == 0 {
                r matches Err(ServiceError::Unauthorized)
            } else {
                exists|verdict: Option<bool>|
                    {
                        &&& #[trigger] call_ensures(
                            *verifier,
                            (&found@.last().password, &auth_data.password, secret_key),
                            verdict,
                        )
                        &&& outcome_view(r) == login_outcome(found@.last()@, verdict)
                    }
            },
        },
{
    let mut found = match users {
        Ok(found) => found,
        Err(error) => {
            return Err(ServiceError::in_auth(error));
        },
    };
    match found.pop() {
        Some(user) => {
            let verdict = verifier(&user.password, &auth_data.password, secret_key);
            login_decision(&user, verdict)
        },
        None => Err(ServiceError::Unauthorized),
    }
}

/// Signs the principal out: the session is revoked. This cannot fail.
pub fn logout() -> (r: SessionCommand)
    ensures
        r == SessionCommand::Forget,
{
    revoke()
}

/// The principal of the request, as the session gave it.
pub fn get_me(logged_user: LoggedUser) -> (r: LoggedUser)
    ensures
        r == logged_user,
{
    logged_user
}

/// An invitation that is out of date is refused, whatever the password:
/// from the instant of its expiry on, no confirmation with it is accepted.
pub proof fn lemma_expired_invitation_is_refused(
    user: UserView,
    invitation: InvitationView,
    verdict: Option<bool>,
    now: int,
)
    requires
        invitation.expires_at <= now,
    ensures
        confirmation_outcome(user, invitation, verdict, now) == Err::<
            ConfirmationView,
            ServiceErrorView,
        >(ServiceErrorView::Unauthorized),
{
}

/// A confirmation is accepted only with a password that matched and an
/// invitation that is unused and not out of date, and it is refused in no
/// other way than `Unauthorized`.
pub proof fn lemma_confirmation_is_all_or_nothing(
    user: UserView,
    invitation: InvitationView,
    verdict: Option<bool>,
    now: int,
)
    ensures
        confirmation_outcome(user, invitation, verdict, now) is Ok <==> (verdict == Some(true)
            && invitation.resolved == 0 && invitation.expires_at > now),
        confirmation_outcome(user, invitation, verdict, now) matches Err(refusal) ==> refusal
            == ServiceErrorView::Unauthorized,
{
}

/// An invitation is good for one confirmation. Once a confirmation with the
/// invitation has been accepted and its writes have been made, the
/// invitation is marked as used and the account, if the store holds it, is
/// active; and after any further writes `later`, a confirmation with the
/// invitation of that identifier is refused, whoever asks and whenever.
pub proof fn lemma_invitation_confirms_once(
    tables: Tables,
    user: UserView,
    invitation: InvitationView,
    verdict: Option<bool>,
    now: int,
    later: Seq<StoreWriteView>,
    next_user: UserView,
    next_verdict: Option<bool>,
    next_now: int,
)
    requires
        tables.invitations.contains_key(invitation.id),
        tables.invitations[invitation.id] == invitation,
        confirmation_outcome(user, invitation, verdict, now) is Ok,
    ensures
        ({
            let writes = confirmation_outcome(user, invitation, verdict, now)->Ok_0.writes;
            let written = apply_all(tables, writes);
            let after = apply_all(written, later);
            &&& written.invitations.contains_key(invitation.id)
            &&& written.invitations[invitation.id].resolved == 1
            &&& tables.users.contains_key(user.id) ==> written.users.contains_key(user.id)
                && written.users[user.id].active == 1
            &&& after.invitations.contains_key(invitation.id)
            &&& confirmation_outcome(
                next_user,
                after.invitations[invitation.id],
                next_verdict,
                next_now,
            ) == Err::<ConfirmationView, ServiceErrorView>(ServiceErrorView::Unauthorized)
        }),
{
    let writes = confirmation_outcome(user, invitation, verdict, now)->Ok_0.writes;
    lemma_apply_pair(
        tables,
        StoreWriteView::ActivateUser(user.id),
        StoreWriteView::ResolveInvitation(invitation.id),
    );
    assert(writes =~= seq![
        StoreWriteView::ActivateUser(user.id),
        StoreWriteView::ResolveInvitation(invitation.id),
    ]);
    let written = apply_all(tables, writes);
    lemma_flags_never_fall_back_all(written, later, invitation.id);
}

} // verus!
