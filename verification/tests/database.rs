use ory_auth::database_calls::{
    create_post, create_post_permissions, create_post_permissions_with_id, create_post_with_id,
    create_user, create_user_with_id, delete_post, edit_post, list_posts, list_users, read_user,
    read_user_by_email, read_user_by_identity_id, BindValue, Fetch, PostPermission,
    PostPermissionRow, Statement,
};
use ory_auth::migrations::{create_posts, create_users, migrate};

fn text(s: &str) -> BindValue {
    BindValue::Text(s.to_string())
}

fn placeholders(s: &Statement) -> usize {
    s.sql.chars().filter(|c| *c == '?').count()
}

fn assert_v4_text(b: &BindValue) {
    let BindValue::Text(id) = b else { panic!("row id is not text") };
    let chars: Vec<char> = id.chars().collect();
    assert_eq!(chars.len(), 36);
    for (i, c) in chars.iter().enumerate() {
        if [8, 13, 18, 23].contains(&i) {
            assert_eq!(*c, '-');
        } else {
            assert!(c.is_ascii_hexdigit() && !c.is_ascii_uppercase());
        }
    }
    assert_eq!(chars[14], '4');
    assert!(['8', '9', 'a', 'b'].contains(&chars[19]));
}

#[test]
fn create_user_binds_a_fresh_id_then_identity_and_email() {
    let s = create_user(&"identity-1".to_string(), &"a@b.c".to_string());
    assert_eq!(s.sql, "INSERT INTO users (user_id,identity_id,email) VALUES (?,?,?)");
    assert_eq!(s.binds.len(), 3);
    assert_v4_text(&s.binds[0]);
    assert_eq!(s.binds[1], text("identity-1"));
    assert_eq!(s.binds[2], text("a@b.c"));
    assert_eq!(s.fetch, Fetch::Execute);
    assert_eq!(placeholders(&s), s.binds.len());
}

#[test]
fn row_ids_are_fresh() {
    let a = create_user(&"i".to_string(), &"e".to_string());
    let b = create_user(&"i".to_string(), &"e".to_string());
    assert_ne!(a.binds[0], b.binds[0]);
}

#[test]
fn create_user_with_id_is_exact() {
    let s = create_user_with_id("u-1".to_string(), &"i-1".to_string(), &"x@y.z".to_string());
    assert_eq!(s.binds, vec![text("u-1"), text("i-1"), text("x@y.z")]);
}

#[test]
fn create_post_reads_the_row_back() {
    let s = create_post(&"user-1".to_string(), &"hello".to_string());
    assert_eq!(s.sql, "INSERT INTO posts (post_id,user_id,content) VALUES (?,?,?) RETURNING *");
    assert_v4_text(&s.binds[0]);
    assert_eq!(s.binds[1..], [text("user-1"), text("hello")]);
    assert_eq!(s.fetch, Fetch::One);
    let t = create_post_with_id("p".to_string(), &"u".to_string(), &"c".to_string());
    assert_eq!(t.binds, vec![text("p"), text("u"), text("c")]);
    assert_eq!(placeholders(&t), 3);
}

#[test]
fn edit_post_binds_post_id_first() {
    let s = edit_post(&"post-9".to_string(), &"new text".to_string());
    assert_eq!(s.sql, "UPDATE posts SET content = ?  WHERE post_id = ?");
    assert_eq!(s.binds, vec![text("post-9"), text("new text")]);
    assert_eq!(s.fetch, Fetch::Execute);
    assert_eq!(placeholders(&s), 2);
}

#[test]
fn delete_and_reads_bind_their_key() {
    let d = delete_post(&"p".to_string());
    assert_eq!(d.sql, "DELETE FROM posts where post_id = ?");
    assert_eq!(d.binds, vec![text("p")]);
    let r = read_user(&"u".to_string());
    assert_eq!(r.sql, "SELECT * FROM users WHERE user_id = ?");
    assert_eq!(r.binds, vec![text("u")]);
    assert_eq!(r.fetch, Fetch::One);
    let r = read_user_by_identity_id(&"i".to_string());
    assert_eq!(r.sql, "SELECT * FROM users WHERE identity_id = ?");
    assert_eq!(r.binds, vec![text("i")]);
    let r = read_user_by_email(&"e".to_string());
    assert_eq!(r.sql, "SELECT * FROM users WHERE email = ?");
    assert_eq!(r.binds, vec![text("e")]);
}

#[test]
fn listings_bind_nothing() {
    let u = list_users();
    assert_eq!(u.sql, "SELECT user_id, identity_id FROM users");
    assert!(u.binds.is_empty());
    assert_eq!(u.fetch, Fetch::All);
    let p = list_posts();
    assert_eq!(p.sql, "SELECT post_id, user_id, content FROM posts");
    assert!(p.binds.is_empty());
    assert_eq!(p.fetch, Fetch::All);
}

#[test]
fn post_permissions_bind_seven_values() {
    let perms = PostPermission { read: true, write: false, edit: true, delete: false };
    let s = create_post_permissions_with_id("perm".to_string(), &"p".to_string(), &"u".to_string(), perms);
    assert_eq!(
        s.sql,
        "INSERT INTO post_permissions (permission_id,post_id,post_id,read,write,edit,delete) VALUES (?,?,?,?,?,?,?)"
    );
    assert_eq!(
        s.binds,
        vec![
            text("perm"),
            text("p"),
            text("u"),
            BindValue::Bool(true),
            BindValue::Bool(false),
            BindValue::Bool(true),
            BindValue::Bool(false)
        ]
    );
    let f = create_post_permissions(&"p".to_string(), &"u".to_string(), perms);
    assert_v4_text(&f.binds[0]);
    assert_eq!(f.binds[1..], s.binds[1..]);
}

#[test]
fn permission_lookup_binds_post_then_user() {
    let s = PostPermission::from_db_call(&"user-1".to_string(), &"post-1".to_string());
    assert_eq!(s.sql, "SELECT * FROM post_permissions WHERE post_id = ? AND user_id = ?");
    assert_eq!(s.binds, vec![text("post-1"), text("user-1")]);
    assert_eq!(s.fetch, Fetch::One);
}

#[test]
fn permission_row_keeps_its_flags() {
    let row = PostPermissionRow {
        permission_id: "x".to_string(),
        post_id: "p".to_string(),
        user_id: "u".to_string(),
        read: true,
        write: true,
        edit: false,
        delete: true,
    };
    assert_eq!(
        PostPermission::from(row),
        PostPermission { read: true, write: true, edit: false, delete: true }
    );
}

#[test]
fn every_statement_binds_one_value_per_placeholder() {
    let perms = PostPermission { read: false, write: false, edit: false, delete: false };
    let all = vec![
        create_user(&"i".to_string(), &"e".to_string()),
        create_post(&"u".to_string(), &"c".to_string()),
        edit_post(&"p".to_string(), &"c".to_string()),
        delete_post(&"p".to_string()),
        list_users(),
        read_user(&"u".to_string()),
        read_user_by_identity_id(&"i".to_string()),
        read_user_by_email(&"e".to_string()),
        list_posts(),
        create_post_permissions(&"p".to_string(), &"u".to_string(), perms),
        PostPermission::from_db_call(&"u".to_string(), &"p".to_string()),
        create_users(),
        create_posts(),
    ];
    for s in &all {
        assert_eq!(placeholders(s), s.binds.len(), "{}", s.sql);
    }
}

#[test]
fn migration_creates_users_before_posts() {
    let steps = migrate();
    assert_eq!(steps.len(), 2);
    assert!(steps[0].sql.contains("CREATE TABLE users ("));
    assert!(steps[0].sql.contains("CREATE INDEX IF NOT EXISTS idx_identity_id ON users (identity_id);"));
    assert!(steps[1].sql.contains("CREATE TABLE IF NOT EXISTS posts ("));
    assert!(steps[1].sql.contains("FOREIGN KEY (user_id) REFERENCES users(user_id)"));
    assert_eq!(steps[0], create_users());
    assert_eq!(steps[1], create_posts());
    for s in &steps {
        assert!(s.binds.is_empty());
        assert_eq!(s.fetch, Fetch::Execute);
    }
}
