//! The statements that the site sends to its SQLite database.
//!
//! Each function here decides the SQL text, the values bound to its `?`
//! placeholders (in order) and how the reply is read; running the statement
//! is left to the caller, which owns the connection pool.
use vstd::prelude::*;

verus! {

/// A value bound to one `?` placeholder of a statement.
#[derive(Debug, Clone, PartialEq, Eq)]
pub enum BindValue {
    Text(String),
    Bool(bool),
}

/// How the reply to a statement is read.
#[derive(Debug, Clone, Copy, PartialEq, Eq, Structural)]
pub enum Fetch {
    /// Run it and keep only success or failure.
    Execute,
    /// Read exactly one row.
    One,
    /// Read every row.
    All,
}

/// An SQL statement with its bound values.
#[derive(Debug, Clone, PartialEq, Eq)]
pub struct Statement {
    pub sql: String,
    pub binds: Vec<BindValue>,
    pub fetch: Fetch,
}

/// The number of `?` placeholders among the first `n` characters of `s`.
pub open spec fn placeholder_count_upto(s: Seq<char>, n: nat) -> nat
    decreases n,
{
    if n == 0 {
        0
    } else {
        placeholder_count_upto(s, (n - 1) as nat) + if s[n - 1] == '?' {
            1nat
        } else {
            0nat
        }
    }
}

/// The number of `?` placeholders in an SQL text.
pub open spec fn placeholder_count(s: Seq<char>) -> nat {
    placeholder_count_upto(s, s.len())
}

impl Statement {
    /// A statement is well formed when it binds exactly one value for each
    /// placeholder of its text.
    pub open spec fn well_formed(&self) -> bool {
        placeholder_count(self.sql@) == self.binds@.len()
    }
}

pub open spec fn is_lower_hex_digit(c: char) -> bool {
    ('0' <= c && c <= '9') || ('a' <= c && c <= 'f')
}

/// The hyphenated lower-case text of a version-4 (random) UUID:
/// 36 characters, hyphens at 8, 13, 18 and 23, lower-case hex digits
/// elsewhere, the version digit `4` at 14 and the variant digit
/// (`8`, `9`, `a` or `b`) at 19.
pub open spec fn is_hyphenated_v4(s: Seq<char>) -> bool {
    &&& s.len() == 36
    &&& forall|i: int|
        0 <= i < 36 ==> if i == 8 || i == 13 || i == 18 || i == 23 {
            s[i] == '-'
        } else {
            is_lower_hex_digit(#[trigger] s[i])
        }
    &&& s[14] == '4'
    &&& (s[19] == '8' || s[19] == '9' || s[19] == 'a' || s[19] == 'b')
}

/// A fresh random row id: `uuid::Uuid::new_v4()` rendered by `to_string`.
///
/// Trusted: uuid's `Display` writes the hyphenated lower-case form, and
/// `new_v4` sets the version nibble to 4 and the variant bits to `10`;
/// nothing is stated of the random digits, nor of two calls being
/// different. `new_v4` panics if the system's random source fails, which
/// no precondition can rule out.
#[verifier::external_body]
fn new_row_id() -> (id: String)
    ensures
        is_hyphenated_v4(id@),
{
    uuid::Uuid::new_v4().to_string()
}

/// Inserts a user row.
pub const CREATE_USER_SQL: &'static str = "INSERT INTO users (user_id,identity_id,email) VALUES (?,?,?)";
/// Inserts a post row and reads it back.
pub const CREATE_POST_SQL: &'static str = "INSERT INTO posts (post_id,user_id,content) VALUES (?,?,?) RETURNING *";
/// Replaces the content of a post.
pub const EDIT_POST_SQL: &'static str = "UPDATE posts SET content = ?  WHERE post_id = ?";
/// Deletes a post.
pub const DELETE_POST_SQL: &'static str = "DELETE FROM posts where post_id = ?";
/// Lists the users.
pub const LIST_USERS_SQL: &'static str = "SELECT user_id, identity_id FROM users";
/// Reads a user by its id.
pub const READ_USER_SQL: &'static str = "SELECT * FROM users WHERE user_id = ?";
/// Reads a user by its Kratos identity id.
pub const READ_USER_BY_IDENTITY_ID_SQL: &'static str = "SELECT * FROM users WHERE identity_id = ?";
/// Reads a user by its email.
pub const READ_USER_BY_EMAIL_SQL: &'static str = "SELECT * FROM users WHERE email = ?";
/// Lists the posts.
pub const LIST_POSTS_SQL: &'static str = "SELECT post_id, user_id, content FROM posts";
/// Inserts the permissions of a user on a post.
pub const CREATE_POST_PERMISSIONS_SQL: &'static str = "INSERT INTO post_permissions (permission_id,post_id,post_id,read,write,edit,delete) VALUES (?,?,?,?,?,?,?)";
/// Reads the permissions of a user on a post.
pub const READ_POST_PERMISSION_SQL: &'static str = "SELECT * FROM post_permissions WHERE post_id = ? AND user_id = ?";

proof fn lemma_create_user_sql()
    ensures
        placeholder_count(CREATE_USER_SQL@) == 3,
{
    reveal_strlit("INSERT INTO users (user_id,identity_id,email) VALUES (?,?,?)");
    reveal_with_fuel(placeholder_count_upto, 50);
    assert(CREATE_USER_SQL@.len() == 60);
    assert(placeholder_count_upto(CREATE_USER_SQL@, 40) == 0);
    assert(placeholder_count_upto(CREATE_USER_SQL@, 60) == 3);
}
proof fn lemma_create_post_sql()
    ensures
        placeholder_count(CREATE_POST_SQL@) == 3,
{
    reveal_strlit("INSERT INTO posts (post_id,user_id,content) VALUES (?,?,?) RETURNING *");
    reveal_with_fuel(placeholder_count_upto, 50);
    assert(CREATE_POST_SQL@.len() == 70);
    assert(placeholder_count_upto(CREATE_POST_SQL@, 40) == 0);
    assert(placeholder_count_upto(CREATE_POST_SQL@, 70) == 3);
}
proof fn lemma_edit_post_sql()
    ensures
        placeholder_count(EDIT_POST_SQL@) == 2,
{
    reveal_strlit("UPDATE posts SET content = ?  WHERE post_id = ?");
    reveal_with_fuel(placeholder_count_upto, 50);
    assert(EDIT_POST_SQL@.len() == 47);
    assert(placeholder_count_upto(EDIT_POST_SQL@, 40) == 1);
    assert(placeholder_count_upto(EDIT_POST_SQL@, 47) == 2);
}
proof fn lemma_delete_post_sql()
    ensures
        placeholder_count(DELETE_POST_SQL@) == 1,
{
    reveal_strlit("DELETE FROM posts where post_id = ?");
    reveal_with_fuel(placeholder_count_upto, 50);
    assert(DELETE_POST_SQL@.len() == 35);
    assert(placeholder_count_upto(DELETE_POST_SQL@, 35) == 1);
}
proof fn lemma_list_users_sql()
    ensures
        placeholder_count(LIST_USERS_SQL@) == 0,
{
    reveal_strlit("SELECT user_id, identity_id FROM users");
    reveal_with_fuel(placeholder_count_upto, 50);
    assert(LIST_USERS_SQL@.len() == 38);
    assert(placeholder_count_upto(LIST_USERS_SQL@, 38) == 0);
}
proof fn lemma_read_user_sql()
    ensures
        placeholder_count(READ_USER_SQL@) == 1,
{
    reveal_strlit("SELECT * FROM users WHERE user_id = ?");
    reveal_with_fuel(placeholder_count_upto, 50);
    assert(READ_USER_SQL@.len() == 37);
    assert(placeholder_count_upto(READ_USER_SQL@, 37) == 1);
}
proof fn lemma_read_user_by_identity_id_sql()
    ensures
        placeholder_count(READ_USER_BY_IDENTITY_ID_SQL@) == 1,
{
    reveal_strlit("SELECT * FROM users WHERE identity_id = ?");
    reveal_with_fuel(placeholder_count_upto, 50);
    assert(READ_USER_BY_IDENTITY_ID_SQL@.len() == 41);
    assert(placeholder_count_upto(READ_USER_BY_IDENTITY_ID_SQL@, 40) == 0);
    assert(placeholder_count_upto(READ_USER_BY_IDENTITY_ID_SQL@, 41) == 1);
}
proof fn lemma_read_user_by_email_sql()
    ensures
        placeholder_count(READ_USER_BY_EMAIL_SQL@) == 1,
{
    reveal_strlit("SELECT * FROM users WHERE email = ?");
    reveal_with_fuel(placeholder_count_upto, 50);
    assert(READ_USER_BY_EMAIL_SQL@.len() == 35);
    assert(placeholder_count_upto(READ_USER_BY_EMAIL_SQL@, 35) == 1);
}
proof fn lemma_list_posts_sql()
    ensures
        placeholder_count(LIST_POSTS_SQL@) == 0,
{
    reveal_strlit("SELECT post_id, user_id, content FROM posts");
    reveal_with_fuel(placeholder_count_upto, 50);
    assert(LIST_POSTS_SQL@.len() == 43);
    assert(placeholder_count_upto(LIST_POSTS_SQL@, 40) == 0);
    assert(placeholder_count_upto(LIST_POSTS_SQL@, 43) == 0);
}
proof fn lemma_create_post_permissions_sql()
    ensures
        placeholder_count(CREATE_POST_PERMISSIONS_SQL@) == 7,
{
    reveal_strlit("INSERT INTO post_permissions (permission_id,post_id,post_id,read,write,edit,delete) VALUES (?,?,?,?,?,?,?)");
    reveal_with_fuel(placeholder_count_upto, 50);
    assert(CREATE_POST_PERMISSIONS_SQL@.len() == 106);
    assert(placeholder_count_upto(CREATE_POST_PERMISSIONS_SQL@, 40) == 0);
    assert(placeholder_count_upto(CREATE_POST_PERMISSIONS_SQL@, 80) == 0);
    assert(placeholder_count_upto(CREATE_POST_PERMISSIONS_SQL@, 106) == 7);
}
proof fn lemma_read_post_permission_sql()
    ensures
        placeholder_count(READ_POST_PERMISSION_SQL@) == 2,
{
    reveal_strlit("SELECT * FROM post_permissions WHERE post_id = ? AND user_id = ?");
    reveal_with_fuel(placeholder_count_upto, 50);
    assert(READ_POST_PERMISSION_SQL@.len() == 64);
    assert(placeholder_count_upto(READ_POST_PERMISSION_SQL@, 40) == 0);
    assert(placeholder_count_upto(READ_POST_PERMISSION_SQL@, 64) == 2);
}

/// Inserts a user with the given row id.
pub fn create_user_with_id(user_id: String, identity_id: &String, email: &String) -> (s: Statement)
    ensures
        s.sql@ == CREATE_USER_SQL@,
        s.binds@ == seq![BindValue::Text(user_id), BindValue::Text(*identity_id), BindValue::Text(*email)],
        s.fetch == Fetch::Execute,
        s.well_formed(),
{
    proof {
        lemma_create_user_sql();
    }
    Statement {
        sql: String::from_str(CREATE_USER_SQL),
        binds: vec![
            BindValue::Text(user_id),
            BindValue::Text(identity_id.clone()),
            BindValue::Text(email.clone()),
        ],
        fetch: Fetch::Execute,
    }
}

/// Inserts a user under a fresh random row id.
pub fn create_user(identity_id: &String, email: &String) -> (s: Statement)
    ensures
        s.sql@ == CREATE_USER_SQL@,
        s.binds@.len() == 3,
        s.binds@[0] matches BindValue::Text(id) && is_hyphenated_v4(id@),
        s.binds@[1] == BindValue::Text(*identity_id),
        s.binds@[2] == BindValue::Text(*email),
        s.fetch == Fetch::Execute,
        s.well_formed(),
{
    create_user_with_id(new_row_id(), identity_id, email)
}

/// Inserts a post with the given row id and reads the inserted row back.
pub fn create_post_with_id(post_id: String, user_id: &String, content: &String) -> (s: Statement)
    ensures
        s.sql@ == CREATE_POST_SQL@,
        s.binds@ == seq![BindValue::Text(post_id), BindValue::Text(*user_id), BindValue::Text(*content)],
        s.fetch == Fetch::One,
        s.well_formed(),
{
    proof {
        lemma_create_post_sql();
    }
    Statement {
        sql: String::from_str(CREATE_POST_SQL),
        binds: vec![
            BindValue::Text(post_id),
            BindValue::Text(user_id.clone()),
            BindValue::Text(content.clone()),
        ],
        fetch: Fetch::One,
    }
}

/// Inserts a post under a fresh random row id and reads the row back.
pub fn create_post(user_id: &String, content: &String) -> (s: Statement)
    ensures
        s.sql@ == CREATE_POST_SQL@,
        s.binds@.len() == 3,
        s.binds@[0] matches BindValue::Text(id) && is_hyphenated_v4(id@),
        s.binds@[1] == BindValue::Text(*user_id),
        s.binds@[2] == BindValue::Text(*content),
        s.fetch == Fetch::One,
        s.well_formed(),
{
    create_post_with_id(new_row_id(), user_id, content)
}

/// The post edit. The values are bound in the order post id, content,
/// so the first placeholder (the new content) receives the post id.
pub fn edit_post(post_id: &String, content: &String) -> (s: Statement)
    ensures
        s.sql@ == EDIT_POST_SQL@,
        s.binds@ == seq![BindValue::Text(*post_id), BindValue::Text(*content)],
        s.fetch == Fetch::Execute,
        s.well_formed(),
{
    proof {
        lemma_edit_post_sql();
    }
    Statement {
        sql: String::from_str(EDIT_POST_SQL),
        binds: vec![BindValue::Text(post_id.clone()), BindValue::Text(content.clone())],
        fetch: Fetch::Execute,
    }
}

/// Deletes a post.
pub fn delete_post(post_id: &String) -> (s: Statement)
    ensures
        s.sql@ == DELETE_POST_SQL@,
        s.binds@ == seq![BindValue::Text(*post_id)],
        s.fetch == Fetch::Execute,
        s.well_formed(),
{
    proof {
        lemma_delete_post_sql();
    }
    Statement {
        sql: String::from_str(DELETE_POST_SQL),
        binds: vec![BindValue::Text(post_id.clone())],
        fetch: Fetch::Execute,
    }
}

/// Lists every user.
pub fn list_users() -> (s: Statement)
    ensures
        s.sql@ == LIST_USERS_SQL@,
        s.binds@.len() == 0,
        s.fetch == Fetch::All,
        s.well_formed(),
{
    proof {
        lemma_list_users_sql();
    }
    Statement { sql: String::from_str(LIST_USERS_SQL), binds: Vec::new(), fetch: Fetch::All }
}

/// Reads the user with the given row id.
pub fn read_user(user_id: &String) -> (s: Statement)
    ensures
        s.sql@ == READ_USER_SQL@,
        s.binds@ == seq![BindValue::Text(*user_id)],
        s.fetch == Fetch::One,
        s.well_formed(),
{
    proof {
        lemma_read_user_sql();
    }
    Statement {
        sql: String::from_str(READ_USER_SQL),
        binds: vec![BindValue::Text(user_id.clone())],
        fetch: Fetch::One,
    }
}

/// Reads the user with the given Kratos identity id.
pub fn read_user_by_identity_id(identity_id: &String) -> (s: Statement)
    ensures
        s.sql@ == READ_USER_BY_IDENTITY_ID_SQL@,
        s.binds@ == seq![BindValue::Text(*identity_id)],
        s.fetch == Fetch::One,
        s.well_formed(),
{
    proof {
        lemma_read_user_by_identity_id_sql();
    }
    Statement {
        sql: String::from_str(READ_USER_BY_IDENTITY_ID_SQL),
        binds: vec![BindValue::Text(identity_id.clone())],
        fetch: Fetch::One,
    }
}

/// Reads the user with the given email.
pub fn read_user_by_email(email: &String) -> (s: Statement)
    ensures
        s.sql@ == READ_USER_BY_EMAIL_SQL@,
        s.binds@ == seq![BindValue::Text(*email)],
        s.fetch == Fetch::One,
        s.well_formed(),
{
    proof {
        lemma_read_user_by_email_sql();
    }
    Statement {
        sql: String::from_str(READ_USER_BY_EMAIL_SQL),
        binds: vec![BindValue::Text(email.clone())],
        fetch: Fetch::One,
    }
}

/// Lists every post.
pub fn list_posts() -> (s: Statement)
    ensures
        s.sql@ == LIST_POSTS_SQL@,
        s.binds@.len() == 0,
        s.fetch == Fetch::All,
        s.well_formed(),
{
    proof {
        lemma_list_posts_sql();
    }
    Statement { sql: String::from_str(LIST_POSTS_SQL), binds: Vec::new(), fetch: Fetch::All }
}

/// What a user may do with a post.
#[derive(Debug, Clone, Copy, PartialEq, Eq, Structural)]
pub struct PostPermission {
    pub read: bool,
    pub write: bool,
    pub edit: bool,
    pub delete: bool,
}

/// A row of the `post_permissions` table.
#[derive(Debug, Clone, PartialEq, Eq)]
pub struct PostPermissionRow {
    pub permission_id: String,
    pub post_id: String,
    pub user_id: String,
    pub read: bool,
    pub write: bool,
    pub edit: bool,
    pub delete: bool,
}

/// A row of the `posts` table.
#[derive(Debug, Clone, PartialEq, Eq)]
pub struct PostRow {
    pub post_id: String,
    pub user_id: String,
    pub content: String,
}

/// A row of the `users` table.
#[derive(Debug, Clone, PartialEq, Eq)]
pub struct UserRow {
    pub user_id: String,
    pub identity_id: String,
    pub email: String,
}

/// Inserts the permissions of a user on a post under the given row id.
pub fn create_post_permissions_with_id(
    permission_id: String,
    post_id: &String,
    user_id: &String,
    permissions: PostPermission,
) -> (s: Statement)
    ensures
        s.sql@ == CREATE_POST_PERMISSIONS_SQL@,
        s.binds@ == seq![
            BindValue::Text(permission_id),
            BindValue::Text(*post_id),
            BindValue::Text(*user_id),
            BindValue::Bool(permissions.read),
            BindValue::Bool(permissions.write),
            BindValue::Bool(permissions.edit),
            BindValue::Bool(permissions.delete),
        ],
        s.fetch == Fetch::Execute,
        s.well_formed(),
{
    proof {
        lemma_create_post_permissions_sql();
    }
    Statement {
        sql: String::from_str(CREATE_POST_PERMISSIONS_SQL),
        binds: vec![
            BindValue::Text(permission_id),
            BindValue::Text(post_id.clone()),
            BindValue::Text(user_id.clone()),
            BindValue::Bool(permissions.read),
            BindValue::Bool(permissions.write),
            BindValue::Bool(permissions.edit),
            BindValue::Bool(permissions.delete),
        ],
        fetch: Fetch::Execute,
    }
}

/// Inserts the permissions of a user on a post under a fresh random row id.
pub fn create_post_permissions(post_id: &String, user_id: &String, permissions: PostPermission) -> (s: Statement)
    ensures
        s.sql@ == CREATE_POST_PERMISSIONS_SQL@,
        s.binds@.len() == 7,
        s.binds@[0] matches BindValue::Text(id) && is_hyphenated_v4(id@),
        s.binds@.subrange(1, 7) == seq![
            BindValue::Text(*post_id),
            BindValue::Text(*user_id),
            BindValue::Bool(permissions.read),
            BindValue::Bool(permissions.write),
            BindValue::Bool(permissions.edit),
            BindValue::Bool(permissions.delete),
        ],
        s.fetch == Fetch::Execute,
        s.well_formed(),
{
    create_post_permissions_with_id(new_row_id(), post_id, user_id, permissions)
}

impl PostPermission {
    /// Reads the permissions row of `user_id` on `post_id`; the values are
    /// bound post id first.
    pub fn from_db_call(user_id: &String, post_id: &String) -> (s: Statement)
        ensures
            s.sql@ == READ_POST_PERMISSION_SQL@,
            s.binds@ == seq![BindValue::Text(*post_id), BindValue::Text(*user_id)],
            s.fetch == Fetch::One,
            s.well_formed(),
    {
        proof {
            lemma_read_post_permission_sql();
        }
        Statement {
            sql: String::from_str(READ_POST_PERMISSION_SQL),
            binds: vec![BindValue::Text(post_id.clone()), BindValue::Text(user_id.clone())],
            fetch: Fetch::One,
        }
    }
}

impl From<PostPermissionRow> for PostPermission {
    /// Keeps the four flags of the row.
    fn from(row: PostPermissionRow) -> (p: Self) {
        PostPermission { read: row.read, write: row.write, edit: row.edit, delete: row.delete }
    }
}

impl vstd::std_specs::convert::FromSpecImpl<PostPermissionRow> for PostPermission {
    open spec fn obeys_from_spec() -> bool {
        true
    }

    open spec fn from_spec(row: PostPermissionRow) -> Self {
        PostPermission { read: row.read, write: row.write, edit: row.edit, delete: row.delete }
    }
}

} // verus!
