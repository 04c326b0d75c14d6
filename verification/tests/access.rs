use conduit::access::{
    can_delete_group, can_mutate_note, can_read_note, can_read_note_among, is_member,
    readable_notes,
};
use conduit::models::{Group, GroupLink, LoggedUser, Note};

fn principal(id: &str) -> LoggedUser {
    LoggedUser { id: id.to_string(), name: id.to_uppercase(), email: format!("{}@x.com", id) }
}

fn note(owner: &str, public: i32, group: Option<&str>) -> Note {
    Note {
        id: "n-1".to_string(),
        group_id: group.map(|g| g.to_string()),
        user_id: owner.to_string(),
        title: "Shopping".to_string(),
        date_tag: 1_715_934_600,
        body: "eggs".to_string(),
        public,
        pinned: 0,
    }
}

fn link(user: &str, group: &str) -> GroupLink {
    GroupLink {
        id: format!("l-{}-{}", user, group),
        user_id: user.to_string(),
        group_id: group.to_string(),
    }
}

fn nobody(_: &String, _: &String) -> bool {
    false
}

fn everybody(_: &String, _: &String) -> bool {
    true
}

#[test]
fn the_owner_reads_whatever_the_flags_say() {
    for public in [0, 1, 7] {
        for group in [None, Some("g-1")] {
            assert!(can_read_note(&principal("a"), &note("a", public, group), &nobody));
            assert!(can_read_note_among(&principal("a"), &note("a", public, group), &vec![]));
        }
    }
}

#[test]
fn anyone_reads_a_public_note() {
    assert!(can_read_note(&principal("b"), &note("a", 1, None), &nobody));
    assert!(can_read_note(&principal("b"), &note("a", 1, Some("g-1")), &nobody));
    assert!(can_read_note_among(&principal("b"), &note("a", 1, None), &vec![]));
}

#[test]
fn only_the_value_one_makes_a_note_public() {
    for public in [0, 2, -1] {
        assert!(!can_read_note(&principal("b"), &note("a", public, None), &everybody));
    }
}

#[test]
fn a_member_of_the_group_reads_a_shared_note() {
    let shared = note("a", 0, Some("g-1"));
    assert!(can_read_note(&principal("b"), &shared, &everybody));
    assert!(can_read_note_among(&principal("b"), &shared, &vec![link("b", "g-1")]));
}

#[test]
fn a_stranger_does_not_read_a_shared_note() {
    let shared = note("a", 0, Some("g-1"));
    assert!(!can_read_note(&principal("b"), &shared, &nobody));
    assert!(!can_read_note_among(&principal("b"), &shared, &vec![]));
    assert!(!can_read_note_among(&principal("b"), &shared, &vec![link("b", "g-2")]));
    assert!(!can_read_note_among(&principal("b"), &shared, &vec![link("c", "g-1")]));
}

#[test]
fn membership_does_not_open_a_note_without_a_group() {
    let private = note("a", 0, None);
    assert!(!can_read_note(&principal("b"), &private, &everybody));
    assert!(!can_read_note_among(&principal("b"), &private, &vec![link("b", "g-1")]));
}

#[test]
fn the_lookup_is_asked_with_the_principal_and_the_group_of_the_note() {
    let asked = |user: &String, group: &String| user == "b" && group == "g-1";
    assert!(can_read_note(&principal("b"), &note("a", 0, Some("g-1")), &asked));
    assert!(!can_read_note(&principal("c"), &note("a", 0, Some("g-1")), &asked));
    assert!(!can_read_note(&principal("b"), &note("a", 0, Some("g-2")), &asked));
}

#[test]
fn the_lookup_is_not_asked_where_the_answer_does_not_rest_on_it() {
    let never = |_: &String, _: &String| -> bool { panic!("asked") };
    assert!(can_read_note(&principal("a"), &note("a", 0, Some("g-1")), &never));
    assert!(can_read_note(&principal("b"), &note("a", 1, Some("g-1")), &never));
    assert!(!can_read_note(&principal("b"), &note("a", 0, None), &never));
}

#[test]
fn only_the_owner_changes_a_note() {
    assert!(can_mutate_note(&principal("a"), &note("a", 0, None)));
    assert!(!can_mutate_note(&principal("b"), &note("a", 0, None)));
    assert!(!can_mutate_note(&principal("b"), &note("a", 1, None)));
}

#[test]
fn a_member_reads_a_shared_note_and_cannot_change_it() {
    let shared = note("a", 0, Some("g-1"));
    let links = vec![link("b", "g-1")];
    assert!(can_read_note_among(&principal("b"), &shared, &links));
    assert!(!can_mutate_note(&principal("b"), &shared));
}

#[test]
fn only_the_creator_deletes_a_group() {
    let group = Group {
        id: "g-1".to_string(),
        created_at: 0,
        created_by: "a".to_string(),
        name: "Family".to_string(),
        color: "green".to_string(),
    };
    assert!(can_delete_group(&principal("a"), &group));
    assert!(!can_delete_group(&principal("b"), &group));
}

#[test]
fn is_member_needs_one_link_with_both_the_user_and_the_group() {
    let links = vec![link("a", "g-1"), link("b", "g-2"), link("c", "g-1")];
    assert!(is_member(&links, &"a".to_string(), &"g-1".to_string()));
    assert!(is_member(&links, &"c".to_string(), &"g-1".to_string()));
    assert!(is_member(&links, &"b".to_string(), &"g-2".to_string()));
    assert!(!is_member(&links, &"b".to_string(), &"g-1".to_string()));
    assert!(!is_member(&links, &"a".to_string(), &"g-2".to_string()));
    assert!(!is_member(&vec![], &"a".to_string(), &"g-1".to_string()));
}

#[test]
fn readable_notes_keeps_what_the_principal_may_read_in_order() {
    let own = Note { id: "n-own".to_string(), ..note("b", 0, None) };
    let open = Note { id: "n-open".to_string(), ..note("a", 1, None) };
    let shared = Note { id: "n-shared".to_string(), ..note("a", 0, Some("g-1")) };
    let elsewhere = Note { id: "n-else".to_string(), ..note("a", 0, Some("g-2")) };
    let private = Note { id: "n-private".to_string(), ..note("a", 0, None) };
    let notes =
        vec![private.clone(), shared.clone(), own.clone(), elsewhere.clone(), open.clone()];
    assert_eq!(
        readable_notes(&principal("b"), &notes, &vec![link("b", "g-1")]),
        vec![shared.clone(), own.clone(), open.clone()]
    );
    assert_eq!(readable_notes(&principal("b"), &notes, &vec![]), vec![own, open.clone()]);
    assert_eq!(
        readable_notes(&principal("a"), &notes, &vec![]),
        vec![private, shared, elsewhere, open]
    );
    assert_eq!(readable_notes(&principal("b"), &vec![], &vec![link("b", "g-1")]), vec![]);
}
