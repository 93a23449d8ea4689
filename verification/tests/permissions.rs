use ory_auth::permissions::{
    add_owner_post_permission, add_user_as_editor, permission_verdict, user_can_delete_post,
    user_can_edit_post, user_can_view_post, PermissionError, RelationTuple,
};

fn tuple(object: &str, relation: &str, subject: &str) -> RelationTuple {
    RelationTuple {
        namespace: "Posts".to_string(),
        object: object.to_string(),
        relation: relation.to_string(),
        subject_id: subject.to_string(),
    }
}

#[test]
fn editor_grant_names_post_and_user() {
    let t = add_user_as_editor(&"post-1".to_string(), &"user-2".to_string());
    assert_eq!(t, tuple("post-1", "editors", "user-2"));
}

#[test]
fn owner_grant_names_post_and_user() {
    let t = add_owner_post_permission(&"post-1".to_string(), &"user-2".to_string());
    assert_eq!(t, tuple("post-1", "owners", "user-2"));
}

#[test]
fn checks_ask_for_the_right_permission() {
    let p = "p".to_string();
    let u = "u".to_string();
    assert_eq!(user_can_edit_post(&p, &u), tuple("p", "edit", "u"));
    assert_eq!(user_can_view_post(&p, &u), tuple("p", "view", "u"));
    assert_eq!(user_can_delete_post(&p, &u), tuple("p", "delete", "u"));
}

#[test]
fn grants_and_checks_differ_only_in_relation() {
    let p = "p".to_string();
    let u = "u".to_string();
    let all = [
        add_user_as_editor(&p, &u),
        add_owner_post_permission(&p, &u),
        user_can_edit_post(&p, &u),
        user_can_view_post(&p, &u),
        user_can_delete_post(&p, &u),
    ];
    for (i, a) in all.iter().enumerate() {
        assert_eq!(a.namespace, "Posts");
        assert_eq!(a.object, "p");
        assert_eq!(a.subject_id, "u");
        for b in all.iter().skip(i + 1) {
            assert_ne!(a, b);
        }
    }
}

#[test]
fn verdict_allows_only_a_yes() {
    assert_eq!(permission_verdict(Ok(true)), Ok(()));
    assert_eq!(permission_verdict(Ok(false)), Err(PermissionError::Denied));
    assert_eq!(
        permission_verdict(Err("connection refused".to_string())),
        Err(PermissionError::Service("connection refused".to_string()))
    );
}

#[test]
fn denied_message_is_the_auth_error() {
    assert_eq!(PermissionError::Denied.message(), "auth_error_msg");
    assert_eq!(PermissionError::Service("boom".to_string()).message(), "boom");
}
