//! Scenario tests for the repositories: creating, finding, publishing and
//! reading back rows against a fresh store.

use blog_data::errors::AppError;
use blog_data::models::{User, UserKey};
use blog_data::posts::{
    all_posts, all_posts_without_comments, create_post, publish_post, user_posts,
    user_posts_without_comments,
};
use blog_data::comments::{create_comment, post_comments, user_comments};
use blog_data::store::Store;
use blog_data::users::{create_user, find_user};

#[test]
fn create_user_returns_fresh_row() {
    let mut store = Store::new();
    let alice = create_user(&mut store, "alice").unwrap();
    assert_eq!(alice.id, 1);
    assert_eq!(alice.username, "alice");
    let bob = create_user(&mut store, "bob").unwrap();
    assert_eq!(bob.id, 2);
    assert_eq!(bob.username, "bob");
}

#[test]
fn duplicate_username_is_rejected() {
    let mut store = Store::new();
    create_user(&mut store, "alice").unwrap();
    let second = create_user(&mut store, "alice");
    assert!(matches!(second, Err(AppError::RecordAlreadyExists)));
    let other = create_user(&mut store, "bob");
    assert!(other.is_ok());
}

#[test]
fn find_user_round_trip() {
    let mut store = Store::new();
    let alice = create_user(&mut store, "alice").unwrap();
    let by_name = find_user(&store, UserKey::Username("alice")).unwrap();
    let by_id = find_user(&store, UserKey::Id(alice.id)).unwrap();
    assert_eq!(by_name, alice);
    assert_eq!(by_id, alice);
}

#[test]
fn find_user_unknown_key_is_not_found() {
    let mut store = Store::new();
    create_user(&mut store, "alice").unwrap();
    let by_id = find_user(&store, UserKey::Id(41));
    assert!(matches!(by_id, Err(AppError::RecordNotFound)));
    let by_name = find_user(&store, UserKey::Username("bob"));
    assert!(matches!(by_name, Err(AppError::RecordNotFound)));
    let empty = Store::new();
    let nobody = find_user(&empty, UserKey::Id(1));
    assert!(matches!(nobody, Err(AppError::RecordNotFound)));
}

#[test]
fn create_post_defaults_to_unpublished() {
    let mut store = Store::new();
    let alice = create_user(&mut store, "alice").unwrap();
    let post = create_post(&mut store, &alice, "Hi", "World").unwrap();
    assert_eq!(post.id, 1);
    assert_eq!(post.user_id, alice.id);
    assert_eq!(post.title, "Hi");
    assert_eq!(post.body, "World");
    assert!(!post.published);
}

#[test]
fn publish_post_is_idempotent() {
    let mut store = Store::new();
    let alice = create_user(&mut store, "alice").unwrap();
    let post = create_post(&mut store, &alice, "Hi", "World").unwrap();
    let once = publish_post(&mut store, post.id).unwrap();
    assert!(once.published);
    assert_eq!(once.id, post.id);
    assert_eq!(once.user_id, post.user_id);
    assert_eq!(once.title, post.title);
    assert_eq!(once.body, post.body);
    let twice = publish_post(&mut store, post.id).unwrap();
    assert_eq!(twice, once);
}

#[test]
fn publish_unknown_post_is_not_found() {
    let mut store = Store::new();
    let missing = publish_post(&mut store, 1);
    assert!(matches!(missing, Err(AppError::RecordNotFound)));
}

#[test]
fn feed_scenario_publish_then_read() {
    let mut store = Store::new();
    let alice = create_user(&mut store, "alice").unwrap();
    assert_eq!(alice.id, 1);
    let post = create_post(&mut store, &alice, "Hi", "World").unwrap();
    assert_eq!(post.id, 1);
    assert!(!post.published);
    let feed = all_posts(&store).unwrap();
    assert!(feed.is_empty());
    publish_post(&mut store, 1).unwrap();
    let feed = all_posts(&store).unwrap();
    assert_eq!(feed.len(), 1);
    let ((p, u), cs) = &feed[0];
    assert_eq!(p.id, 1);
    assert_eq!(p.title, "Hi");
    assert_eq!(p.body, "World");
    assert!(p.published);
    assert_eq!(u.id, 1);
    assert_eq!(u.username, "alice");
    assert!(cs.is_empty());
}

#[test]
fn comment_scenario_read_back_with_author() {
    let mut store = Store::new();
    let alice = create_user(&mut store, "alice").unwrap();
    create_post(&mut store, &alice, "Hi", "World").unwrap();
    let bob = create_user(&mut store, "bob").unwrap();
    assert_eq!(bob.id, 2);
    let comment = create_comment(&mut store, 2, 1, "nice").unwrap();
    assert_eq!(comment.user_id, 2);
    assert_eq!(comment.post_id, 1);
    assert_eq!(comment.body, "nice");
    let loaded = post_comments(&store, 1).unwrap();
    assert_eq!(loaded.len(), 1);
    let (c, u) = &loaded[0];
    assert_eq!(c, &comment);
    assert_eq!(u.id, 2);
    assert_eq!(u.username, "bob");
}

#[test]
fn create_comment_rejects_dangling_references() {
    let mut store = Store::new();
    let alice = create_user(&mut store, "alice").unwrap();
    let no_post = create_comment(&mut store, 1, 1, "early");
    assert!(matches!(no_post, Err(AppError::DatabaseError(_))));
    create_post(&mut store, &alice, "Hi", "World").unwrap();
    let no_user = create_comment(&mut store, 9, 1, "ghost");
    assert!(matches!(no_user, Err(AppError::DatabaseError(_))));
    let good = create_comment(&mut store, 1, 1, "fine");
    assert!(good.is_ok());
}

#[test]
fn feed_orders_posts_by_descending_id_and_groups_comments() {
    let mut store = Store::new();
    let alice = create_user(&mut store, "alice").unwrap();
    let bob = create_user(&mut store, "bob").unwrap();
    let first = create_post(&mut store, &alice, "first", "a").unwrap();
    let second = create_post(&mut store, &bob, "second", "b").unwrap();
    let third = create_post(&mut store, &alice, "third", "c").unwrap();
    publish_post(&mut store, first.id).unwrap();
    publish_post(&mut store, third.id).unwrap();
    create_comment(&mut store, bob.id, first.id, "one").unwrap();
    create_comment(&mut store, alice.id, third.id, "two").unwrap();
    create_comment(&mut store, bob.id, first.id, "three").unwrap();
    create_comment(&mut store, alice.id, second.id, "hidden").unwrap();
    let feed = all_posts(&store).unwrap();
    assert_eq!(feed.len(), 2);
    assert_eq!(feed[0].0 .0.id, third.id);
    assert_eq!(feed[0].0 .1.username, "alice");
    assert_eq!(feed[1].0 .0.id, first.id);
    assert_eq!(feed[1].0 .1.username, "alice");
    let third_comments = &feed[0].1;
    assert_eq!(third_comments.len(), 1);
    assert_eq!(third_comments[0].0.body, "two");
    let first_comments = &feed[1].1;
    assert_eq!(first_comments.len(), 2);
    assert_eq!(first_comments[0].0.body, "one");
    assert_eq!(first_comments[0].1.username, "bob");
    assert_eq!(first_comments[1].0.body, "three");
    for ((p, _), cs) in &feed {
        assert!(p.published);
        for (c, _) in cs {
            assert_eq!(c.post_id, p.id);
        }
    }
}

#[test]
fn user_posts_returns_unpublished_rows_too() {
    let mut store = Store::new();
    let alice = create_user(&mut store, "alice").unwrap();
    let bob = create_user(&mut store, "bob").unwrap();
    let mine = create_post(&mut store, &alice, "mine", "a").unwrap();
    create_post(&mut store, &bob, "theirs", "b").unwrap();
    let later = create_post(&mut store, &alice, "later", "c").unwrap();
    create_comment(&mut store, bob.id, mine.id, "hello").unwrap();
    let posts = user_posts(&store, alice.id).unwrap();
    assert_eq!(posts.len(), 2);
    assert_eq!(posts[0].0.id, later.id);
    assert!(posts[0].1.is_empty());
    assert_eq!(posts[1].0.id, mine.id);
    assert_eq!(posts[1].1.len(), 1);
    assert_eq!(posts[1].1[0].0.body, "hello");
    assert_eq!(posts[1].1[0].1.username, "bob");
}

#[test]
fn reduced_queries_skip_comment_aggregation() {
    let mut store = Store::new();
    let alice = create_user(&mut store, "alice").unwrap();
    let one = create_post(&mut store, &alice, "one", "a").unwrap();
    let two = create_post(&mut store, &alice, "two", "b").unwrap();
    publish_post(&mut store, two.id).unwrap();
    let feed = all_posts_without_comments(&store).unwrap();
    assert_eq!(feed.len(), 1);
    assert_eq!(feed[0].0.id, two.id);
    assert_eq!(feed[0].1.username, "alice");
    let mine = user_posts_without_comments(&store, alice.id).unwrap();
    assert_eq!(mine.len(), 2);
    assert_eq!(mine[0].id, two.id);
    assert_eq!(mine[1].id, one.id);
}

#[test]
fn user_comments_joins_post_summaries() {
    let mut store = Store::new();
    let alice = create_user(&mut store, "alice").unwrap();
    let bob = create_user(&mut store, "bob").unwrap();
    let post = create_post(&mut store, &alice, "Hi", "World").unwrap();
    publish_post(&mut store, post.id).unwrap();
    create_comment(&mut store, bob.id, post.id, "nice").unwrap();
    create_comment(&mut store, alice.id, post.id, "thanks").unwrap();
    let bobs = user_comments(&store, bob.id).unwrap();
    assert_eq!(bobs.len(), 1);
    assert_eq!(bobs[0].0.body, "nice");
    assert_eq!(bobs[0].1.id, post.id);
    assert_eq!(bobs[0].1.title, "Hi");
    assert!(bobs[0].1.published);
    let nobody = user_comments(&store, 17).unwrap();
    assert!(nobody.is_empty());
}

#[test]
fn post_comments_of_unknown_post_is_empty() {
    let mut store = Store::new();
    create_user(&mut store, "alice").unwrap();
    let loaded = post_comments(&store, 5).unwrap();
    assert!(loaded.is_empty());
}

#[test]
fn stale_user_reference_must_be_checked_before_create_post() {
    let mut store = Store::new();
    create_user(&mut store, "alice").unwrap();
    let ghost_user = User { id: 9, username: "ghost".to_string() };
    let found = find_user(&store, UserKey::Id(ghost_user.id));
    assert!(matches!(found, Err(AppError::RecordNotFound)));
}
