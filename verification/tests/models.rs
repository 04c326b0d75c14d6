use conduit::errors::{ServiceError, StoreError};
use conduit::models::{Group, GroupLink, Invitation, LoggedUser, NewGroup, NewUser, User};
use conduit::session::{
    cookie_policy, issue, revoke, sign_in, SessionCommand, SessionIdentity, SignedIn,
    SESSION_MAX_AGE,
};
use conduit::store::{loaded, planned, settle, StoreWrite};
use std::time::{SystemTime, UNIX_EPOCH};

fn ann() -> NewUser {
    NewUser {
        name: "Ann".to_string(),
        email: "ann@x.com".to_string(),
        password: "pw1".to_string(),
    }
}

fn principal(id: &str) -> LoggedUser {
    LoggedUser { id: id.to_string(), name: id.to_uppercase(), email: format!("{}@x.com", id) }
}

fn unix_now() -> i64 {
    SystemTime::now().duration_since(UNIX_EPOCH).unwrap().as_secs() as i64
}

fn assert_id_shaped(id: &str) {
    assert_eq!(id.len(), 36, "{:?}", id);
    for (at, c) in id.chars().enumerate() {
        if at == 8 || at == 13 || at == 18 || at == 23 {
            assert_eq!(c, '-', "{:?}", id);
        } else {
            assert!(matches!(c, '0'..='9' | 'a'..='f'), "{:?}", id);
        }
    }
}

#[test]
fn user_from_hashes_the_password_and_starts_inactive() {
    let hasher = |password: &String, key: &String| Some(format!("{}/{}", key, password));
    let user = User::from(ann(), &"k".to_string(), &hasher).unwrap();
    assert_id_shaped(&user.id);
    assert_eq!(user.name, "Ann");
    assert_eq!(user.email, "ann@x.com");
    assert_eq!(user.password, "k/pw1");
    assert_eq!(user.active, 0);
}

#[test]
fn user_from_fails_with_internal_error_where_the_hasher_fails() {
    let hasher = |_: &String, _: &String| -> Option<String> { None };
    assert_eq!(User::from(ann(), &"k".to_string(), &hasher), Err(ServiceError::InternalServerError));
}

#[test]
fn user_from_draws_a_new_identifier_each_time() {
    let hasher = |password: &String, _: &String| Some(password.clone());
    let first = User::from(ann(), &"k".to_string(), &hasher).unwrap();
    let second = User::from(ann(), &"k".to_string(), &hasher).unwrap();
    assert_ne!(first.id, second.id);
}

#[test]
fn activate_sets_the_flag_and_nothing_else() {
    let user = User::pending("u-1".to_string(), ann(), "hash".to_string());
    assert_eq!(user.active, 0);
    let active = user.clone().activate();
    assert_eq!(active, User { active: 1, ..user });
    assert_eq!(active.clone().activate(), active);
}

#[test]
fn invitation_from_email_is_open_for_twenty_four_hours() {
    let before = unix_now();
    let invitation = Invitation::from_email("ann@x.com".to_string());
    let after = unix_now();
    assert_id_shaped(&invitation.id);
    assert_eq!(invitation.email, "ann@x.com");
    assert_eq!(invitation.resolved, 0);
    // The clock of the invitation is the local one: within a day of UTC.
    let issued = invitation.expires_at - 86_400;
    assert!(before - 86_400 <= issued && issued <= after + 86_400);
    assert!(invitation.is_open(issued));
    assert!(invitation.is_open(issued + 86_399));
    assert!(!invitation.is_open(issued + 86_400));
}

#[test]
fn invitation_from_user_goes_to_the_address_of_the_user() {
    let user = User::pending("u-1".to_string(), ann(), "hash".to_string());
    let invitation = Invitation::from_user(&user);
    assert_eq!(invitation.email, "ann@x.com");
    assert_eq!(invitation.resolved, 0);
    assert_ne!(invitation.id, Invitation::from_user(&user).id);
}

#[test]
fn resolve_flips_the_flag_and_stays_flipped() {
    let invitation = Invitation::opened("i-1".to_string(), "ann@x.com".to_string(), 50);
    assert_eq!(
        invitation,
        Invitation {
            id: "i-1".to_string(),
            email: "ann@x.com".to_string(),
            expires_at: 86_450,
            resolved: 0
        }
    );
    let used = invitation.clone().resolve();
    assert_eq!(used, Invitation { resolved: 1, ..invitation });
    assert!(!used.is_open(60));
    assert_eq!(used.clone().resolve(), used);
}

#[test]
fn group_from_is_created_by_the_principal_now() {
    let before = unix_now();
    let group =
        Group::from(NewGroup { color: "red".to_string(), name: "Work".to_string() }, principal("a"));
    let after = unix_now();
    assert_id_shaped(&group.id);
    assert_eq!(group.created_by, "a");
    assert_eq!(group.name, "Work");
    assert_eq!(group.color, "red");
    assert!(before <= group.created_at && group.created_at <= after);
}

#[test]
fn group_link_from_ties_the_principal_to_the_group() {
    let group = Group::created(
        "g-1".to_string(),
        NewGroup { color: "red".to_string(), name: "Work".to_string() },
        principal("a"),
        7,
    );
    let link = GroupLink::from(&group, &principal("b"));
    assert_id_shaped(&link.id);
    assert_eq!(link.user_id, "b");
    assert_eq!(link.group_id, "g-1");
    assert_eq!(
        GroupLink::joining("l-1".to_string(), &group, &principal("b")),
        GroupLink { id: "l-1".to_string(), user_id: "b".to_string(), group_id: "g-1".to_string() }
    );
}

#[test]
fn a_request_without_a_readable_session_is_unauthorized() {
    assert_eq!(LoggedUser::from_request(SessionIdentity::Absent), Err(ServiceError::Unauthorized));
    assert_eq!(
        LoggedUser::from_request(SessionIdentity::Unreadable),
        Err(ServiceError::Unauthorized)
    );
}

#[test]
fn a_session_stands_for_the_principal_it_was_issued_for() {
    match issue(&principal("a")) {
        SessionCommand::Remember(carried) => assert_eq!(
            LoggedUser::from_request(SessionIdentity::Principal(carried)),
            Ok(principal("a"))
        ),
        SessionCommand::Forget => panic!("nothing was issued"),
    }
    assert_eq!(revoke(), SessionCommand::Forget);
}

#[test]
fn the_session_cookie_lasts_a_day_and_is_secure_in_production() {
    let policy = cookie_policy(true);
    assert_eq!(policy.name, "auth");
    assert_eq!(policy.path, "/");
    assert_eq!(policy.max_age, 86_400);
    assert_eq!(SESSION_MAX_AGE, 86_400);
    assert!(policy.http_only);
    assert!(policy.secure);
    assert!(!cookie_policy(false).secure);
}

#[test]
fn store_failures_become_refusals_by_context() {
    assert_eq!(ServiceError::in_auth(StoreError::NotFound), ServiceError::Unauthorized);
    assert_eq!(ServiceError::in_auth(StoreError::Fault), ServiceError::InternalServerError);
    assert_eq!(
        ServiceError::in_resource(StoreError::NotFound, "Invalid note identifiers!"),
        ServiceError::BadRequest("Invalid note identifiers!".to_string())
    );
    assert_eq!(
        ServiceError::in_resource(StoreError::Fault, "Invalid note identifiers!"),
        ServiceError::InternalServerError
    );
}

#[test]
fn loaded_passes_rows_on_and_maps_failures() {
    assert_eq!(loaded(Ok(vec![1, 2]), "nothing"), Ok(vec![1, 2]));
    assert_eq!(
        loaded::<Vec<i32>>(Err(StoreError::NotFound), "nothing"),
        Err(ServiceError::BadRequest("nothing".to_string()))
    );
    assert_eq!(
        loaded::<Vec<i32>>(Err(StoreError::Fault), "nothing"),
        Err(ServiceError::InternalServerError)
    );
}

#[test]
fn settle_answers_once_the_writes_are_made() {
    assert_eq!(settle("done", Ok(())), Ok("done"));
    assert_eq!(settle("done", Err(StoreError::Fault)), Err(ServiceError::InternalServerError));
    assert_eq!(settle("done", Err(StoreError::NotFound)), Err(ServiceError::InternalServerError));
}

#[test]
fn planned_holds_the_reply_and_its_one_write() {
    let plan = planned(5, StoreWrite::DeleteNote("n-1".to_string()));
    assert_eq!(plan.reply, 5);
    assert_eq!(plan.writes, vec![StoreWrite::DeleteNote("n-1".to_string())]);
}

#[test]
fn sign_in_issues_the_session_of_the_principal() {
    assert_eq!(
        sign_in(principal("a")),
        SignedIn { principal: principal("a"), session: SessionCommand::Remember(principal("a")) }
    );
}
