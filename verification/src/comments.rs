//! The comment repository: create comments inside a transaction, and load
//! comments joined with either their author or their parent post's summary.

use vstd::prelude::*;

use crate::errors::AppError;
use crate::models::{Comment, CommentView, PostWithComment, User, UserView};
use crate::store::{
    comment_author_views, comment_by, comment_on, comment_summary_views, lemma_filter_push, Store,
    StoreView,
};

verus! {

/// Filtering keeps a strictly ascending comment id order, and every
/// selected pair is a pair of the input.
proof fn lemma_filter_keeps_ascending(
    s: Seq<(CommentView, UserView)>,
    pred: spec_fn((CommentView, UserView)) -> bool,
)
    requires
        forall|a: int, b: int| 0 <= a < b < s.len() ==> s[a].0.id < s[b].0.id,
    ensures
        forall|a: int, b: int|
            0 <= a < b < s.filter(pred).len() ==> s.filter(pred)[a].0.id < s.filter(pred)[b].0.id,
        forall|i: int|
            0 <= i < s.filter(pred).len() ==> exists|j: int|
                0 <= j < s.len() && #[trigger] s.filter(pred)[i] == s[j],
    decreases s.len(),
{
    reveal(Seq::filter);
    if s.len() != 0 {
        let prefix = s.drop_last();
        let last = s.last();
        lemma_filter_keeps_ascending(prefix, pred);
        assert(prefix.push(last) =~= s);
        lemma_filter_push(prefix, last, pred);
        let f = s.filter(pred);
        let fp = prefix.filter(pred);
        assert forall|i: int| 0 <= i < f.len() implies exists|j: int|
            0 <= j < s.len() && #[trigger] f[i] == s[j] by {
            if i < fp.len() {
                let j = choose|j: int| 0 <= j < prefix.len() && #[trigger] fp[i] == prefix[j];
                assert(f[i] == s[j]);
            } else {
                assert(f[i] == s[s.len() - 1]);
            }
        }
        assert forall|a: int, b: int| 0 <= a < b < f.len() implies f[a].0.id < f[b].0.id by {
            if b < fp.len() {
                assert(fp[a].0.id < fp[b].0.id);
            } else {
                let j = choose|j: int| 0 <= j < prefix.len() && #[trigger] fp[a] == prefix[j];
                assert(f[a] == s[j]);
                assert(f[b] == last);
            }
        }
    }
}

/// Law: grouping is stable. Within one post's comment group the comments
/// keep their store (insertion) order, witnessed by strictly ascending
/// comment ids.
pub proof fn lemma_comment_groups_stable(s: StoreView, post_id: int)
    requires
        s.wf(),
    ensures
        forall|a: int, b: int|
            0 <= a < b < s.comments_of_post(post_id).len() ==> s.comments_of_post(post_id)[a].0.id
                < s.comments_of_post(post_id)[b].0.id,
{
    let joined = s.joined_comments();
    assert forall|a: int, b: int| 0 <= a < b < joined.len() implies joined[a].0.id
        < joined[b].0.id by {
        assert(joined[a].0 == s.comments[a]);
        assert(joined[b].0 == s.comments[b]);
    }
    lemma_filter_keeps_ascending(joined, comment_on(post_id));
}

/// Creates a comment row inside one transaction: insert, then read the
/// just-inserted row back (the row with the greatest id) and return it.
/// The store enforces the two foreign keys at insert time, so a dangling
/// author or post reference surfaces as a storage fault rather than as a
/// silently orphaned row; the id space running out is a storage fault too.
pub fn create_comment(conn: &mut Store, user_id: i32, post_id: i32, body: &str) -> (r: Result<
    Comment,
    AppError,
>)
    requires
        old(conn)@.wf(),
    ensures
        final(conn)@.wf(),
        ({
            let s = old(conn)@;
            if !(1 <= user_id && user_id as int <= s.users.len()) || !(1 <= post_id
                && post_id as int <= s.posts.len()) {
                &&& final(conn)@ == s
                &&& r matches Err(e) && e is DatabaseError
            } else if s.comments.len() >= i32::MAX as int {
                &&& final(conn)@ == s
                &&& r matches Err(e) && e is DatabaseError
            } else {
                &&& r matches Ok(c)
                &&& c@ == (CommentView {
                    id: s.comments.len() as int + 1,
                    user_id: user_id as int,
                    post_id: post_id as int,
                    body: body@,
                })
                &&& final(conn)@ == (StoreView { comments: s.comments.push(c@), ..s })
            }
        }),
{
    let ghost s = conn@;
    if user_id < 1 || post_id < 1 {
        return Err(AppError::DatabaseError("dangling foreign key".to_owned()));
    }
    if (user_id as usize) > conn.users.len() || (post_id as usize) > conn.posts.len() {
        return Err(AppError::DatabaseError("dangling foreign key".to_owned()));
    }
    if conn.comments.len() >= (i32::MAX as usize) {
        return Err(AppError::DatabaseError("comment id space exhausted".to_owned()));
    }
    let id: i32 = (conn.comments.len() + 1) as i32;
    conn.comments.push(Comment { id, user_id, post_id, body: body.to_owned() });
    let last: usize = conn.comments.len() - 1;
    let c = conn.comments[last].clone();
    proof {
        assert(conn@.comments =~= s.comments.push(c@));
        assert(conn@.users =~= s.users);
        assert(conn@.posts =~= s.posts);
        assert(conn@ == (StoreView { comments: s.comments.push(c@), ..s }));
        assert forall|i: int| 0 <= i < conn@.comments.len() implies (#[trigger] conn@.comments[i]).id
            == i + 1 && 1 <= conn@.comments[i].user_id <= conn@.users.len() && 1
            <= conn@.comments[i].post_id <= conn@.posts.len() by {
            if i < s.comments.len() {
                assert(conn@.comments[i] == s.comments[i]);
            }
        }
    }
    Ok(c)
}

/// Loads all comments of one post, joined to their authors, in store
/// order. A post with no comments, or an unknown post id, yields an empty
/// sequence, never an error.
pub fn post_comments(conn: &Store, post_id: i32) -> (r: Result<Vec<(Comment, User)>, AppError>)
    requires
        conn@.wf(),
    ensures
        r matches Ok(v) && comment_author_views(v@) == conn@.comments_of_post(post_id as int),
{
    let mut out: Vec<(Comment, User)> = Vec::new();
    let mut i: usize = 0;
    while i < conn.comments.len()
        invariant
            conn@.wf(),
            i <= conn@.comments.len(),
            comment_author_views(out@) == conn@.joined_comments().subrange(0, i as int).filter(
                comment_on(post_id as int),
            ),
        decreases conn@.comments.len() - i,
    {
        let ghost prefix = conn@.joined_comments().subrange(0, i as int);
        let ghost joined = conn@.joined_comments()[i as int];
        proof {
            assert(conn@.joined_comments().subrange(0, i as int + 1) =~= prefix.push(joined));
            lemma_filter_push(prefix, joined, comment_on(post_id as int));
        }
        if conn.comments[i].post_id == post_id {
            let ghost before = out@;
            let comment = conn.comments[i].clone();
            let author = conn.users[(comment.user_id - 1) as usize].clone();
            out.push((comment, author));
            proof {
                assert((comment@, author@) == joined);
                assert(comment_author_views(out@) =~= comment_author_views(before).push(joined));
            }
        }
        i += 1;
    }
    proof {
        assert(conn@.joined_comments().subrange(0, conn@.comments.len() as int)
            =~= conn@.joined_comments());
    }
    Ok(out)
}

/// Loads all comments one user wrote, joined to their parent posts'
/// reduced summaries, in store order.
pub fn user_comments(conn: &Store, user_id: i32) -> (r: Result<
    Vec<(Comment, PostWithComment)>,
    AppError,
>)
    requires
        conn@.wf(),
    ensures
        r matches Ok(v) && comment_summary_views(v@) == conn@.comments_of_user(user_id as int),
{
    let mut out: Vec<(Comment, PostWithComment)> = Vec::new();
    let mut i: usize = 0;
    while i < conn.comments.len()
        invariant
            conn@.wf(),
            i <= conn@.comments.len(),
            comment_summary_views(out@) == conn@.summarized_comments().subrange(0, i as int).filter(
                comment_by(user_id as int),
            ),
        decreases conn@.comments.len() - i,
    {
        let ghost prefix = conn@.summarized_comments().subrange(0, i as int);
        let ghost joined = conn@.summarized_comments()[i as int];
        proof {
            assert(conn@.summarized_comments().subrange(0, i as int + 1) =~= prefix.push(joined));
            lemma_filter_push(prefix, joined, comment_by(user_id as int));
        }
        if conn.comments[i].user_id == user_id {
            let ghost before = out@;
            let comment = conn.comments[i].clone();
            let parent = &conn.posts[(comment.post_id - 1) as usize];
            let summary = PostWithComment {
                id: parent.id,
                title: parent.title.clone(),
                published: parent.published,
            };
            out.push((comment, summary));
            proof {
                assert((comment@, summary@) == joined);
                assert(comment_summary_views(out@) =~= comment_summary_views(before).push(joined));
            }
        }
        i += 1;
    }
    proof {
        assert(conn@.summarized_comments().subrange(0, conn@.comments.len() as int)
            =~= conn@.summarized_comments());
    }
    Ok(out)
}

} // verus!
