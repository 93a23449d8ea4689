//! The schema of the site's database, created in dependency order.
use vstd::prelude::*;
use crate::database_calls::{placeholder_count, placeholder_count_upto, Fetch, Statement};

verus! {

/// Creates the `users` table and its index on `identity_id`.
pub const CREATE_USERS_TABLE_SQL: &'static str = "\n    CREATE TABLE users (\n        user_id TEXT PRIMARY KEY,\n        identity_id TEXT NOT NULL,\n        email TEXT NOT NULL\n    );\n    CREATE INDEX IF NOT EXISTS idx_identity_id ON users (identity_id);";
/// Creates the `posts` table, whose rows refer to `users`.
pub const CREATE_POSTS_TABLE_SQL: &'static str = "\n    CREATE TABLE IF NOT EXISTS posts (\n        post_id TEXT PRIMARY KEY,\n        user_id TEXT NOT NULL,\n        content TEXT NOT NULL,\n        FOREIGN KEY (user_id) REFERENCES users(user_id)\n    );";

proof fn lemma_create_users_table_sql()
    ensures
        placeholder_count(CREATE_USERS_TABLE_SQL@) == 0,
{
    reveal_strlit("\n    CREATE TABLE users (\n        user_id TEXT PRIMARY KEY,\n        identity_id TEXT NOT NULL,\n        email TEXT NOT NULL\n    );\n    CREATE INDEX IF NOT EXISTS idx_identity_id ON users (identity_id);");
    reveal_with_fuel(placeholder_count_upto, 50);
    assert(CREATE_USERS_TABLE_SQL@.len() == 200);
    assert(placeholder_count_upto(CREATE_USERS_TABLE_SQL@, 40) == 0);
    assert(placeholder_count_upto(CREATE_USERS_TABLE_SQL@, 80) == 0);
    assert(placeholder_count_upto(CREATE_USERS_TABLE_SQL@, 120) == 0);
    assert(placeholder_count_upto(CREATE_USERS_TABLE_SQL@, 160) == 0);
    assert(placeholder_count_upto(CREATE_USERS_TABLE_SQL@, 200) == 0);
}
proof fn lemma_create_posts_table_sql()
    ensures
        placeholder_count(CREATE_POSTS_TABLE_SQL@) == 0,
{
    reveal_strlit("\n    CREATE TABLE IF NOT EXISTS posts (\n        post_id TEXT PRIMARY KEY,\n        user_id TEXT NOT NULL,\n        content TEXT NOT NULL,\n        FOREIGN KEY (user_id) REFERENCES users(user_id)\n    );");
    reveal_with_fuel(placeholder_count_upto, 50);
    assert(CREATE_POSTS_TABLE_SQL@.len() == 198);
    assert(placeholder_count_upto(CREATE_POSTS_TABLE_SQL@, 40) == 0);
    assert(placeholder_count_upto(CREATE_POSTS_TABLE_SQL@, 80) == 0);
    assert(placeholder_count_upto(CREATE_POSTS_TABLE_SQL@, 120) == 0);
    assert(placeholder_count_upto(CREATE_POSTS_TABLE_SQL@, 160) == 0);
    assert(placeholder_count_upto(CREATE_POSTS_TABLE_SQL@, 198) == 0);
}

/// Creates the `users` table.
pub fn create_users() -> (s: Statement)
    ensures
        s.sql@ == CREATE_USERS_TABLE_SQL@,
        s.binds@.len() == 0,
        s.fetch == Fetch::Execute,
        s.well_formed(),
{
    proof {
        lemma_create_users_table_sql();
    }
    Statement { sql: String::from_str(CREATE_USERS_TABLE_SQL), binds: Vec::new(), fetch: Fetch::Execute }
}

/// Creates the `posts` table.
pub fn create_posts() -> (s: Statement)
    ensures
        s.sql@ == CREATE_POSTS_TABLE_SQL@,
        s.binds@.len() == 0,
        s.fetch == Fetch::Execute,
        s.well_formed(),
{
    proof {
        lemma_create_posts_table_sql();
    }
    Statement { sql: String::from_str(CREATE_POSTS_TABLE_SQL), binds: Vec::new(), fetch: Fetch::Execute }
}

/// The statements that set up the schema, to be run in order until one
/// fails: the users table first, since posts refer to it.
pub fn migrate() -> (steps: Vec<Statement>)
    ensures
        steps@.len() == 2,
        steps@[0].sql@ == CREATE_USERS_TABLE_SQL@,
        steps@[1].sql@ == CREATE_POSTS_TABLE_SQL@,
        forall|i: int| 0 <= i < steps@.len() ==> (#[trigger] steps@[i]).binds@.len() == 0
            && steps@[i].fetch == Fetch::Execute && steps@[i].well_formed(),
{
    let mut steps = Vec::new();
    steps.push(create_users());
    steps.push(create_posts());
    steps
}

} // verus!
