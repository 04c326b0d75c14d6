use conduit::access::is_member;
use conduit::errors::{ServiceError, StoreError};
use conduit::models::{Group, GroupLink, LoggedUser, NewGroup, NewNote, Note, NotePatch};
use conduit::routes::groups;
use conduit::routes::notes::{
    delete_note, get_note, get_public, get_user_notes, insert, note_access, update_note,
};
use conduit::store::StoreWrite;

fn principal(id: &str) -> LoggedUser {
    LoggedUser { id: id.to_string(), name: id.to_uppercase(), email: format!("{}@x.com", id) }
}

fn new_note(group: Option<&str>, date_tag: &str) -> NewNote {
    NewNote {
        title: "Shopping".to_string(),
        group_id: group.map(|g| g.to_string()),
        date_tag: date_tag.to_string(),
        body: "eggs".to_string(),
        public: 0,
        pinned: 1,
    }
}

fn empty_patch() -> NotePatch {
    NotePatch {
        user_id: None,
        group_id: None,
        title: None,
        date_tag: None,
        body: None,
        public: None,
        pinned: None,
    }
}

fn private_note_of(owner: &str) -> Note {
    insert(principal(owner), new_note(None, "2024-05-17 08:30:00")).unwrap().reply
}

fn no_lookup(_: &String, _: &String) -> Result<bool, StoreError> {
    panic!("the lookup was asked")
}

fn bad_request(message: &str) -> ServiceError {
    ServiceError::BadRequest(message.to_string())
}

#[test]
fn insert_makes_the_note_of_the_principal_and_the_write_that_adds_it() {
    let plan = insert(principal("a"), new_note(Some("g-1"), "2024-05-17 08:30:00")).unwrap();
    let note = plan.reply;
    assert_eq!(note.user_id, "a");
    assert_eq!(note.group_id, Some("g-1".to_string()));
    assert_eq!(note.title, "Shopping");
    assert_eq!(note.body, "eggs");
    assert_eq!(note.public, 0);
    assert_eq!(note.pinned, 1);
    assert_eq!(note.date_tag, 1_715_934_600);
    assert_eq!(plan.writes, vec![StoreWrite::InsertNote(note)]);
}

#[test]
fn insert_reads_the_date_tag_as_a_date_and_a_time() {
    let at = |text: &str| insert(principal("a"), new_note(None, text)).map(|plan| plan.reply.date_tag);
    assert_eq!(at("1970-01-01 00:00:00"), Ok(0));
    assert_eq!(at("1970-01-02 00:00:01"), Ok(86_401));
    assert_eq!(at("1969-12-31 23:59:59"), Ok(-1));
    assert_eq!(at("2000-02-29 12:00:00"), Ok(951_825_600));
}

#[test]
fn insert_answers_internal_error_for_a_date_tag_that_names_no_instant() {
    for text in ["", "tomorrow", "2024-05-17", "2024-13-01 00:00:00", "2023-02-29 10:00:00"] {
        assert_eq!(
            insert(principal("a"), new_note(None, text)),
            Err(ServiceError::InternalServerError),
            "{:?}",
            text
        );
    }
}

#[test]
fn try_from_is_none_exactly_where_the_date_tag_cannot_be_read() {
    assert!(Note::try_from(new_note(None, "2024-05-17 08:30:00"), principal("a")).is_some());
    assert!(Note::try_from(new_note(None, "17.05.2024"), principal("a")).is_none());
}

#[test]
fn from_makes_notes_with_distinct_identifiers() {
    let first = Note::from(new_note(None, "2024-05-17 08:30:00"), principal("a"));
    let second = Note::from(new_note(None, "2024-05-17 08:30:00"), principal("a"));
    assert_ne!(first.id, second.id);
    assert_eq!(first.date_tag, second.date_tag);
}

#[test]
fn get_note_hands_the_owner_the_note_without_asking_the_lookup() {
    let note = private_note_of("a");
    assert_eq!(get_note(&principal("a"), Ok(note.clone()), &no_lookup), Ok(note));
}

#[test]
fn get_note_hands_anyone_a_public_note() {
    let note = Note { public: 1, ..private_note_of("a") };
    assert_eq!(get_note(&principal("b"), Ok(note.clone()), &no_lookup), Ok(note));
}

#[test]
fn get_note_forbids_a_private_note_to_a_stranger() {
    let note = private_note_of("a");
    assert_eq!(get_note(&principal("b"), Ok(note), &no_lookup), Err(ServiceError::Forbidden));
}

#[test]
fn get_note_follows_the_lookup_for_a_shared_note() {
    let note = Note { group_id: Some("g-1".to_string()), ..private_note_of("a") };
    let member = |_: &String, _: &String| -> Result<bool, StoreError> { Ok(true) };
    let stranger = |_: &String, _: &String| -> Result<bool, StoreError> { Ok(false) };
    assert_eq!(get_note(&principal("b"), Ok(note.clone()), &member), Ok(note.clone()));
    assert_eq!(get_note(&principal("b"), Ok(note), &stranger), Err(ServiceError::Forbidden));
}

#[test]
fn get_note_maps_store_failures() {
    assert_eq!(
        get_note(&principal("a"), Err(StoreError::NotFound), &no_lookup),
        Err(bad_request("Invalid note identifiers!"))
    );
    assert_eq!(
        get_note(&principal("a"), Err(StoreError::Fault), &no_lookup),
        Err(ServiceError::InternalServerError)
    );
    let note = Note { group_id: Some("g-1".to_string()), ..private_note_of("a") };
    let broken = |_: &String, _: &String| -> Result<bool, StoreError> { Err(StoreError::Fault) };
    assert_eq!(
        get_note(&principal("b"), Ok(note), &broken),
        Err(ServiceError::InternalServerError)
    );
}

#[test]
fn note_access_is_the_reading_rule() {
    let note = Note { group_id: Some("g-1".to_string()), ..private_note_of("a") };
    assert_eq!(note_access(&principal("a"), note.clone(), false), Ok(note.clone()));
    assert_eq!(note_access(&principal("b"), note.clone(), true), Ok(note.clone()));
    assert_eq!(note_access(&principal("b"), note, false), Err(ServiceError::Forbidden));
    let loose = private_note_of("a");
    assert_eq!(note_access(&principal("b"), loose, true), Err(ServiceError::Forbidden));
}

#[test]
fn update_note_gives_the_owner_the_write_that_applies_the_patch() {
    let note = private_note_of("a");
    let patch = NotePatch { title: Some("Groceries".to_string()), ..empty_patch() };
    let same = NotePatch { title: Some("Groceries".to_string()), ..empty_patch() };
    let plan = update_note(&principal("a"), Ok(vec![note.clone()]), patch).unwrap();
    assert_eq!(plan.reply, note.id);
    assert_eq!(plan.writes, vec![StoreWrite::PatchNote(note.id, same)]);
}

#[test]
fn update_note_never_hands_the_note_to_another_user() {
    let note = private_note_of("a");
    let patch = NotePatch {
        user_id: Some("b".to_string()),
        body: Some("milk".to_string()),
        ..empty_patch()
    };
    let plan = update_note(&principal("a"), Ok(vec![note.clone()]), patch).unwrap();
    assert_eq!(
        plan.writes,
        vec![StoreWrite::PatchNote(
            note.id,
            NotePatch { user_id: None, body: Some("milk".to_string()), ..empty_patch() }
        )]
    );
}

#[test]
fn update_note_forbids_everyone_but_the_owner() {
    let note = Note { public: 1, group_id: Some("g-1".to_string()), ..private_note_of("a") };
    assert_eq!(
        update_note(&principal("b"), Ok(vec![note]), empty_patch()),
        Err(ServiceError::Forbidden)
    );
}

#[test]
fn update_note_answers_bad_request_where_there_is_no_such_note() {
    assert_eq!(
        update_note(&principal("a"), Ok(vec![]), empty_patch()),
        Err(bad_request("Invalid note identifiers!"))
    );
    assert_eq!(
        update_note(&principal("a"), Err(StoreError::NotFound), empty_patch()),
        Err(bad_request("Invalid note identifiers!"))
    );
    assert_eq!(
        update_note(&principal("a"), Err(StoreError::Fault), empty_patch()),
        Err(ServiceError::InternalServerError)
    );
}

#[test]
fn delete_note_is_for_the_owner_alone() {
    let note = private_note_of("a");
    let plan = delete_note(&principal("a"), Ok(note.clone())).unwrap();
    assert_eq!(plan.reply, note);
    assert_eq!(plan.writes, vec![StoreWrite::DeleteNote(note.id.clone())]);
    assert_eq!(delete_note(&principal("b"), Ok(note)), Err(ServiceError::Forbidden));
    assert_eq!(
        delete_note(&principal("a"), Err(StoreError::NotFound)),
        Err(bad_request("Invalid note identifiers!"))
    );
}

/// The memberships after the writes of a plan.
fn links_after(mut links: Vec<GroupLink>, writes: Vec<StoreWrite>) -> Vec<GroupLink> {
    for write in writes {
        match write {
            StoreWrite::InsertGroupLink(link) => links.push(link),
            StoreWrite::DeleteGroupLink { group_id, user_id } => {
                links.retain(|link| !(link.group_id == group_id && link.user_id == user_id))
            }
            StoreWrite::DeleteGroupLinks(group_id) => links.retain(|link| link.group_id != group_id),
            _ => {}
        }
    }
    links
}

#[test]
fn scenario_d_sharing_through_a_group_lets_a_member_read_and_not_write() {
    let a = principal("a");
    let b = principal("b");
    let mut links: Vec<GroupLink> = vec![];
    let shown = |links: &Vec<GroupLink>, note: &Note| {
        let lookup = |user: &String, group: &String| -> Result<bool, StoreError> {
            Ok(is_member(links, user, group))
        };
        get_note(&b, Ok(note.clone()), &lookup)
    };

    let note = private_note_of("a");
    assert_eq!(shown(&links, &note), Err(ServiceError::Forbidden));

    let group: Group = groups::insert(
        NewGroup { color: "green".to_string(), name: "Family".to_string() },
        principal("a"),
    )
    .reply;
    let patch = NotePatch { group_id: Some(group.id.clone()), ..empty_patch() };
    let update = update_note(&a, Ok(vec![note.clone()]), patch).unwrap();
    let note = match &update.writes[0] {
        StoreWrite::PatchNote(id, patch) if *id == note.id => {
            Note { group_id: patch.group_id.clone(), ..note }
        }
        other => panic!("unexpected write {:?}", other),
    };
    assert_eq!(shown(&links, &note), Err(ServiceError::Forbidden));

    let joined = groups::join(&b, Ok(group.clone())).unwrap();
    assert_eq!(joined.reply, group);
    links = links_after(links, joined.writes);
    assert_eq!(shown(&links, &note), Ok(note.clone()));

    assert_eq!(update_note(&b, Ok(vec![note.clone()]), empty_patch()), Err(ServiceError::Forbidden));

    let target = groups::GroupTarget { id: group.id.clone() };
    let left = groups::leave(target, &b, Ok(group)).unwrap();
    links = links_after(links, left.writes);
    assert_eq!(shown(&links, &note), Err(ServiceError::Forbidden));
}

#[test]
fn the_listings_hand_the_notes_on_or_map_the_failure() {
    let note = private_note_of("a");
    assert_eq!(get_user_notes(Ok(vec![note.clone()])), Ok(vec![note.clone()]));
    assert_eq!(get_public(Ok(vec![note.clone()])), Ok(vec![note]));
    assert_eq!(get_user_notes(Err(StoreError::Fault)), Err(ServiceError::InternalServerError));
    assert_eq!(
        get_public(Err(StoreError::NotFound)),
        Err(bad_request("Invalid note identifiers!"))
    );
}
