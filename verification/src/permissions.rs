//! The relation tuples that the site writes to and checks against Ory Keto
//! for its posts, and what it answers when Keto has replied.
use vstd::prelude::*;
use crate::ids::AUTH_ERROR_MSG;

verus! {

/// The Keto namespace of posts.
pub const POSTS_NAMESPACE: &'static str = "Posts";

pub const EDITORS_RELATION: &'static str = "editors";

pub const OWNERS_RELATION: &'static str = "owners";

pub const EDIT_PERMISSION: &'static str = "edit";

pub const VIEW_PERMISSION: &'static str = "view";

pub const DELETE_PERMISSION: &'static str = "delete";

/// A Keto relation tuple whose subject is a user id (it never names a
/// subject set): `namespace:object#relation@subject_id`.
#[derive(Debug, Clone, PartialEq, Eq)]
pub struct RelationTuple {
    pub namespace: String,
    pub object: String,
    pub relation: String,
    pub subject_id: String,
}

impl View for RelationTuple {
    type V = (Seq<char>, Seq<char>, Seq<char>, Seq<char>);

    open spec fn view(&self) -> Self::V {
        (self.namespace@, self.object@, self.relation@, self.subject_id@)
    }
}

/// The tuple relating a user to a post in the posts namespace.
pub open spec fn post_tuple(post_id: Seq<char>, relation: Seq<char>, user_id: Seq<char>) -> (
    Seq<char>,
    Seq<char>,
    Seq<char>,
    Seq<char>,
) {
    (POSTS_NAMESPACE@, post_id, relation, user_id)
}

fn post_relation(post_id: &String, relation: &'static str, user_id: &String) -> (t: RelationTuple)
    ensures
        t@ == post_tuple(post_id@, relation@, user_id@),
        t.namespace@ == POSTS_NAMESPACE@,
        t.object@ == post_id@,
        t.relation@ == relation@,
        t.subject_id@ == user_id@,
{
    RelationTuple {
        namespace: String::from_str(POSTS_NAMESPACE),
        object: post_id.clone(),
        relation: String::from_str(relation),
        subject_id: user_id.clone(),
    }
}

/// The tuple to create so that a user becomes an editor of a post.
pub fn add_user_as_editor(post_id: &String, new_editor_user_id: &String) -> (t: RelationTuple)
    ensures
        t@ == post_tuple(post_id@, EDITORS_RELATION@, new_editor_user_id@),
        t.namespace@ == "Posts"@,
        t.object@ == post_id@,
        t.relation@ == "editors"@,
        t.subject_id@ == new_editor_user_id@,
{
    proof {
        reveal_strlit("Posts");
        reveal_strlit("editors");
    }
    post_relation(post_id, EDITORS_RELATION, new_editor_user_id)
}

/// The tuple to create so that a user becomes an owner of a post.
pub fn add_owner_post_permission(post_id: &String, owner_user_id: &String) -> (t: RelationTuple)
    ensures
        t@ == post_tuple(post_id@, OWNERS_RELATION@, owner_user_id@),
        t.namespace@ == "Posts"@,
        t.object@ == post_id@,
        t.relation@ == "owners"@,
        t.subject_id@ == owner_user_id@,
{
    proof {
        reveal_strlit("Posts");
        reveal_strlit("owners");
    }
    post_relation(post_id, OWNERS_RELATION, owner_user_id)
}

/// The permission to check before a user edits a post.
pub fn user_can_edit_post(post_id: &String, user_id: &String) -> (t: RelationTuple)
    ensures
        t@ == post_tuple(post_id@, EDIT_PERMISSION@, user_id@),
        t.namespace@ == "Posts"@,
        t.object@ == post_id@,
        t.relation@ == "edit"@,
        t.subject_id@ == user_id@,
{
    proof {
        reveal_strlit("Posts");
        reveal_strlit("edit");
    }
    post_relation(post_id, EDIT_PERMISSION, user_id)
}

/// The permission to check before a user views a post.
pub fn user_can_view_post(post_id: &String, user_id: &String) -> (t: RelationTuple)
    ensures
        t@ == post_tuple(post_id@, VIEW_PERMISSION@, user_id@),
        t.namespace@ == "Posts"@,
        t.object@ == post_id@,
        t.relation@ == "view"@,
        t.subject_id@ == user_id@,
{
    proof {
        reveal_strlit("Posts");
        reveal_strlit("view");
    }
    post_relation(post_id, VIEW_PERMISSION, user_id)
}

/// The permission to check before a user deletes a post.
pub fn user_can_delete_post(post_id: &String, user_id: &String) -> (t: RelationTuple)
    ensures
        t@ == post_tuple(post_id@, DELETE_PERMISSION@, user_id@),
        t.namespace@ == "Posts"@,
        t.object@ == post_id@,
        t.relation@ == "delete"@,
        t.subject_id@ == user_id@,
{
    proof {
        reveal_strlit("Posts");
        reveal_strlit("delete");
    }
    post_relation(post_id, DELETE_PERMISSION, user_id)
}

/// Why a guarded request is not carried out.
#[derive(Debug, Clone, PartialEq, Eq)]
pub enum PermissionError {
    /// Keto answered that the user lacks the permission.
    Denied,
    /// Keto could not be asked; its client's message.
    Service(String),
}

impl PermissionError {
    /// The message returned to the client.
    pub fn message(&self) -> (m: String)
        ensures
            m@ == match self {
                PermissionError::Denied => AUTH_ERROR_MSG@,
                PermissionError::Service(e) => e@,
            },
    {
        match self {
            PermissionError::Denied => String::from_str(AUTH_ERROR_MSG),
            PermissionError::Service(e) => e.clone(),
        }
    }
}

/// What a permission check answers once Keto has replied: the request may
/// go on exactly when Keto said the user holds the permission.
pub fn permission_verdict(reply: Result<bool, String>) -> (r: Result<(), PermissionError>)
    ensures
        r is Ok <==> reply == Ok::<bool, String>(true),
        reply == Ok::<bool, String>(false) ==> r matches Err(PermissionError::Denied),
        reply matches Err(e) ==> r matches Err(PermissionError::Service(m)) && m == e,
{
    match reply {
        Ok(true) => Ok(()),
        Ok(false) => Err(PermissionError::Denied),
        Err(e) => Err(PermissionError::Service(e)),
    }
}

/// Every tuple about a post is in the posts namespace, has the post as
/// its object and the user as its subject, for any post id and user id.
pub proof fn lemma_post_tuple_names_post_and_user(post_id: Seq<char>, relation: Seq<char>, user_id: Seq<char>)
    ensures
        post_tuple(post_id, relation, user_id).0 == "Posts"@,
        post_tuple(post_id, relation, user_id).1 == post_id,
        post_tuple(post_id, relation, user_id).2 == relation,
        post_tuple(post_id, relation, user_id).3 == user_id,
{
    reveal_strlit("Posts");
}

/// The grants and the checks for one user on one post are distinct tuples:
/// making a user an editor is not making them an owner, and the edit, view
/// and delete checks ask three different questions.
pub proof fn lemma_relations_are_distinct(post_id: Seq<char>, user_id: Seq<char>)
    ensures
        post_tuple(post_id, EDITORS_RELATION@, user_id) != post_tuple(post_id, OWNERS_RELATION@, user_id),
        post_tuple(post_id, EDIT_PERMISSION@, user_id) != post_tuple(post_id, VIEW_PERMISSION@, user_id),
        post_tuple(post_id, EDIT_PERMISSION@, user_id) != post_tuple(post_id, DELETE_PERMISSION@, user_id),
        post_tuple(post_id, VIEW_PERMISSION@, user_id) != post_tuple(post_id, DELETE_PERMISSION@, user_id),
{
    reveal_strlit("editors");
    reveal_strlit("owners");
    reveal_strlit("edit");
    reveal_strlit("view");
    reveal_strlit("delete");
    assert(EDITORS_RELATION@[0] != OWNERS_RELATION@[0]);
    assert(EDIT_PERMISSION@.len() != DELETE_PERMISSION@.len());
    assert(VIEW_PERMISSION@.len() != DELETE_PERMISSION@.len());
    assert(EDIT_PERMISSION@[0] != VIEW_PERMISSION@[0]);
}

} // verus!
