//! The three entity kinds the layer manages, together with their
//! mathematical images. Contracts throughout the crate speak of the image
//! types, never of the executable representation.

use vstd::prelude::*;

verus! {

/// A stored user row: a store-assigned, unique, immutable id and a unique
/// username.
#[derive(Debug, PartialEq)]
pub struct User {
    pub id: i32,
    pub username: String,
}

/// Mathematical image of a `User`.
pub struct UserView {
    pub id: int,
    pub username: Seq<char>,
}

impl View for User {
    type V = UserView;

    open spec fn view(&self) -> UserView {
        UserView { id: self.id as int, username: self.username@ }
    }
}

impl Clone for User {
    fn clone(&self) -> (r: Self)
        ensures
            r == *self,
    {
        User { id: self.id, username: self.username.clone() }
    }
}

/// A lookup key for `find_user`: either a username or a numeric id.
pub enum UserKey<'a> {
    Username(&'a str),
    Id(i32),
}

/// A stored post row. `published` starts false and transitions to true
/// exactly once, via the publish operation.
#[derive(Debug, PartialEq)]
pub struct Post {
    pub id: i32,
    pub user_id: i32,
    pub title: String,
    pub body: String,
    pub published: bool,
}

/// Mathematical image of a `Post`.
pub struct PostView {
    pub id: int,
    pub user_id: int,
    pub title: Seq<char>,
    pub body: Seq<char>,
    pub published: bool,
}

impl View for Post {
    type V = PostView;

    open spec fn view(&self) -> PostView {
        PostView {
            id: self.id as int,
            user_id: self.user_id as int,
            title: self.title@,
            body: self.body@,
            published: self.published,
        }
    }
}

impl Clone for Post {
    fn clone(&self) -> (r: Self)
        ensures
            r == *self,
    {
        Post {
            id: self.id,
            user_id: self.user_id,
            title: self.title.clone(),
            body: self.body.clone(),
            published: self.published,
        }
    }
}

/// A stored comment row, referencing its author and its parent post.
#[derive(Debug, PartialEq)]
pub struct Comment {
    pub id: i32,
    pub user_id: i32,
    pub post_id: i32,
    pub body: String,
}

/// Mathematical image of a `Comment`.
pub struct CommentView {
    pub id: int,
    pub user_id: int,
    pub post_id: int,
    pub body: Seq<char>,
}

impl View for Comment {
    type V = CommentView;

    open spec fn view(&self) -> CommentView {
        CommentView {
            id: self.id as int,
            user_id: self.user_id as int,
            post_id: self.post_id as int,
            body: self.body@,
        }
    }
}

impl Clone for Comment {
    fn clone(&self) -> (r: Self)
        ensures
            r == *self,
    {
        Comment {
            id: self.id,
            user_id: self.user_id,
            post_id: self.post_id,
            body: self.body.clone(),
        }
    }
}

/// The reduced projection of a post used when a comment's parent post does
/// not need full detail.
#[derive(Debug, PartialEq)]
pub struct PostWithComment {
    pub id: i32,
    pub title: String,
    pub published: bool,
}

/// Mathematical image of a `PostWithComment`.
pub struct PostSummaryView {
    pub id: int,
    pub title: Seq<char>,
    pub published: bool,
}

impl View for PostWithComment {
    type V = PostSummaryView;

    open spec fn view(&self) -> PostSummaryView {
        PostSummaryView { id: self.id as int, title: self.title@, published: self.published }
    }
}

impl Clone for PostWithComment {
    fn clone(&self) -> (r: Self)
        ensures
            r == *self,
    {
        PostWithComment { id: self.id, title: self.title.clone(), published: self.published }
    }
}

} // verus!
