//! The storage engine's committed state, modelled as an owned row store.
//!
//! The store is the sole owner of persisted rows; repositories hold no
//! cache, and every read reflects the current committed state. Row ids are
//! store-assigned: the id of the n-th inserted row of each table is n,
//! counting from 1, and rows are never deleted, so ids stay dense and a row
//! can be fetched by its id in one step.

use vstd::prelude::*;

use crate::models::{
    Comment, CommentView, Post, PostSummaryView, PostView, PostWithComment, User, UserView,
};

verus! {

/// The images of a sequence of user rows.
pub open spec fn user_views(s: Seq<User>) -> Seq<UserView> {
    s.map_values(|u: User| u@)
}

/// The images of a sequence of post rows.
pub open spec fn post_views(s: Seq<Post>) -> Seq<PostView> {
    s.map_values(|p: Post| p@)
}

/// The images of a sequence of comment rows.
pub open spec fn comment_views(s: Seq<Comment>) -> Seq<CommentView> {
    s.map_values(|c: Comment| c@)
}

/// The images of a sequence of comment rows joined to their authors.
pub open spec fn comment_author_views(s: Seq<(Comment, User)>) -> Seq<(CommentView, UserView)> {
    s.map_values(|cu: (Comment, User)| (cu.0@, cu.1@))
}

/// The images of a sequence of comment rows joined to post summaries.
pub open spec fn comment_summary_views(s: Seq<(Comment, PostWithComment)>) -> Seq<
    (CommentView, PostSummaryView),
> {
    s.map_values(|cp: (Comment, PostWithComment)| (cp.0@, cp.1@))
}

/// One sequence-level step of `Seq::filter`: filtering a sequence extended
/// by one element keeps the filtered prefix and appends the element exactly
/// when it satisfies the predicate.
pub proof fn lemma_filter_push<A>(s: Seq<A>, x: A, pred: spec_fn(A) -> bool)
    ensures
        s.push(x).filter(pred) == (if pred(x) {
            s.filter(pred).push(x)
        } else {
            s.filter(pred)
        }),
{
    reveal(Seq::filter);
    assert(s.push(x).drop_last() =~= s);
    assert(s.push(x).last() == x);
}

/// The predicate selecting published posts.
pub open spec fn is_published() -> spec_fn(PostView) -> bool {
    |p: PostView| p.published
}

/// The predicate selecting the posts of one author.
pub open spec fn authored_by(user_id: int) -> spec_fn(PostView) -> bool {
    |p: PostView| p.user_id == user_id
}

/// The predicate selecting the author-joined comments of one post.
pub open spec fn comment_on(post_id: int) -> spec_fn((CommentView, UserView)) -> bool {
    |cu: (CommentView, UserView)| cu.0.post_id == post_id
}

/// The predicate selecting the summary-joined comments of one author.
pub open spec fn comment_by(user_id: int) -> spec_fn((CommentView, PostSummaryView)) -> bool {
    |cp: (CommentView, PostSummaryView)| cp.0.user_id == user_id
}

/// The committed state: one table per entity kind. A repository operation
/// owns the store exclusively while it runs, which is what makes each
/// write-then-read-back transactional: nothing can be interleaved between
/// the write and its read-back.
pub struct Store {
    pub users: Vec<User>,
    pub posts: Vec<Post>,
    pub comments: Vec<Comment>,
}

/// Mathematical image of a `Store`.
pub struct StoreView {
    pub users: Seq<UserView>,
    pub posts: Seq<PostView>,
    pub comments: Seq<CommentView>,
}

impl View for Store {
    type V = StoreView;

    open spec fn view(&self) -> StoreView {
        StoreView {
            users: user_views(self.users@),
            posts: post_views(self.posts@),
            comments: comment_views(self.comments@),
        }
    }
}

impl StoreView {
    /// Well-formedness of the committed state: ids are dense and assigned in
    /// insertion order, usernames are unique, and every foreign key
    /// references an existing row.
    pub open spec fn wf(self) -> bool {
        &&& forall|i: int|
            0 <= i < self.users.len() ==> (#[trigger] self.users[i]).id == i + 1
        &&& forall|i: int, j: int|
            0 <= i < j < self.users.len() ==> self.users[i].username != self.users[j].username
        &&& forall|i: int|
            0 <= i < self.posts.len() ==> (#[trigger] self.posts[i]).id == i + 1
        &&& forall|i: int|
            0 <= i < self.posts.len() ==> 1 <= (#[trigger] self.posts[i]).user_id
                <= self.users.len()
        &&& forall|i: int|
            0 <= i < self.comments.len() ==> (#[trigger] self.comments[i]).id == i + 1
        &&& forall|i: int|
            0 <= i < self.comments.len() ==> 1 <= (#[trigger] self.comments[i]).user_id
                <= self.users.len()
        &&& forall|i: int|
            0 <= i < self.comments.len() ==> 1 <= (#[trigger] self.comments[i]).post_id
                <= self.posts.len()
    }

    /// Whether some user row already carries the given username.
    pub open spec fn username_taken(self, name: Seq<char>) -> bool {
        exists|i: int| 0 <= i < self.users.len() && (#[trigger] self.users[i]).username == name
    }

    /// Whether the given user is a committed row of the store. With dense
    /// ids, a committed row sits at the index its id names.
    pub open spec fn has_user(self, u: UserView) -> bool {
        1 <= u.id <= self.users.len() && self.users[u.id - 1] == u
    }

    /// The author row a foreign key references.
    pub open spec fn author_of(self, user_id: int) -> UserView {
        self.users[user_id - 1]
    }

    /// The canonical feed: all published posts, ordered by descending id.
    pub open spec fn feed(self) -> Seq<PostView> {
        self.posts.reverse().filter(is_published())
    }

    /// All posts of one author, published or not, ordered by descending id.
    pub open spec fn posts_of_user(self, user_id: int) -> Seq<PostView> {
        self.posts.reverse().filter(authored_by(user_id))
    }

    /// Every comment joined to its author, in store order.
    pub open spec fn joined_comments(self) -> Seq<(CommentView, UserView)> {
        Seq::new(
            self.comments.len(),
            |i: int| (self.comments[i], self.users[self.comments[i].user_id - 1]),
        )
    }

    /// The comments of one post, joined to their authors, in store order.
    pub open spec fn comments_of_post(self, post_id: int) -> Seq<(CommentView, UserView)> {
        self.joined_comments().filter(comment_on(post_id))
    }

    /// The reduced projection of the post a foreign key references.
    pub open spec fn summary_of(self, post_id: int) -> PostSummaryView {
        let p = self.posts[post_id - 1];
        PostSummaryView { id: p.id, title: p.title, published: p.published }
    }

    /// Every comment joined to the summary of its parent post, in store
    /// order.
    pub open spec fn summarized_comments(self) -> Seq<(CommentView, PostSummaryView)> {
        Seq::new(
            self.comments.len(),
            |i: int| (self.comments[i], self.summary_of(self.comments[i].post_id)),
        )
    }

    /// The comments one user wrote, joined to their parent posts'
    /// summaries, in store order.
    pub open spec fn comments_of_user(self, user_id: int) -> Seq<(CommentView, PostSummaryView)> {
        self.summarized_comments().filter(comment_by(user_id))
    }

    /// The state after the publish operation on the given post id: the row,
    /// when it exists, has `published` set true and every other field kept;
    /// an unknown id changes nothing.
    pub open spec fn publish(self, post_id: int) -> StoreView {
        if 1 <= post_id <= self.posts.len() {
            StoreView {
                posts: self.posts.update(
                    post_id - 1,
                    PostView { published: true, ..self.posts[post_id - 1] },
                ),
                ..self
            }
        } else {
            self
        }
    }
}

impl Store {
    /// An empty store: no committed rows of any kind.
    pub fn new() -> (r: Store)
        ensures
            r@.wf(),
            r@.users == Seq::<UserView>::empty(),
            r@.posts == Seq::<PostView>::empty(),
            r@.comments == Seq::<CommentView>::empty(),
    {
        let r = Store { users: Vec::new(), posts: Vec::new(), comments: Vec::new() };
        proof {
            assert(r@.users =~= Seq::<UserView>::empty());
            assert(r@.posts =~= Seq::<PostView>::empty());
            assert(r@.comments =~= Seq::<CommentView>::empty());
        }
        r
    }
}

} // verus!
