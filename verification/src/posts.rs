//! The post repository: create posts, publish posts, and load posts
//! (optionally joined with their author and their grouped comments).

use vstd::prelude::*;

use crate::errors::AppError;
use crate::grouper::{belongs_to, group_comments_by_post};
use crate::models::{Comment, CommentView, Post, PostView, User, UserView};
use crate::store::{
    authored_by, comment_author_views, comment_on, is_published, lemma_filter_push, post_views,
    Store, StoreView,
};

verus! {

/// Creates a post row for an already-validated author inside one
/// transaction: insert, then read the just-inserted row back (the row with
/// the greatest id) and return it. `published` defaults to false; the id
/// space running out is a storage fault.
pub fn create_post(conn: &mut Store, user: &User, title: &str, body: &str) -> (r: Result<
    Post,
    AppError,
>)
    requires
        old(conn)@.wf(),
        old(conn)@.has_user(user@),
    ensures
        final(conn)@.wf(),
        ({
            let s = old(conn)@;
            if s.posts.len() >= i32::MAX as int {
                &&& final(conn)@ == s
                &&& r matches Err(e) && e is DatabaseError
            } else {
                &&& r matches Ok(p)
                &&& p@ == (PostView {
                    id: s.posts.len() as int + 1,
                    user_id: user@.id,
                    title: title@,
                    body: body@,
                    published: false,
                })
                &&& final(conn)@ == (StoreView { posts: s.posts.push(p@), ..s })
            }
        }),
{
    let ghost s = conn@;
    if conn.posts.len() >= (i32::MAX as usize) {
        return Err(AppError::DatabaseError("post id space exhausted".to_owned()));
    }
    let id: i32 = (conn.posts.len() + 1) as i32;
    conn.posts.push(
        Post {
            id,
            user_id: user.id,
            title: title.to_owned(),
            body: body.to_owned(),
            published: false,
        },
    );
    let last: usize = conn.posts.len() - 1;
    let p = conn.posts[last].clone();
    proof {
        assert(conn@.posts =~= s.posts.push(p@));
        assert(conn@.users =~= s.users);
        assert(conn@.comments =~= s.comments);
        assert(conn@ == (StoreView { posts: s.posts.push(p@), ..s }));
        assert forall|i: int| 0 <= i < conn@.posts.len() implies (#[trigger] conn@.posts[i]).id == i
            + 1 && 1 <= conn@.posts[i].user_id <= conn@.users.len() by {
            if i < s.posts.len() {
                assert(conn@.posts[i] == s.posts[i]);
            }
        }
    }
    Ok(p)
}

/// Publishes a post inside one transaction: set `published` true, then
/// read the row back by its known id and return it. Re-publishing an
/// already-published post is a no-op that still returns the row; an
/// unknown id makes the read-back fail with `RecordNotFound`.
pub fn publish_post(conn: &mut Store, post_id: i32) -> (r: Result<Post, AppError>)
    requires
        old(conn)@.wf(),
    ensures
        final(conn)@.wf(),
        final(conn)@ == old(conn)@.publish(post_id as int),
        ({
            let s = old(conn)@;
            if 1 <= post_id && post_id as int <= s.posts.len() {
                r matches Ok(p) && p@ == (PostView {
                    published: true,
                    ..s.posts[post_id as int - 1]
                })
            } else {
                r matches Err(e) && e == AppError::RecordNotFound
            }
        }),
{
    let ghost s = conn@;
    if post_id < 1 || (post_id as usize) > conn.posts.len() {
        return Err(AppError::RecordNotFound);
    }
    let idx: usize = (post_id - 1) as usize;
    conn.posts[idx].published = true;
    let p = conn.posts[idx].clone();
    proof {
        assert(conn@.posts =~= s.posts.update(idx as int, p@));
        assert(conn@.users =~= s.users);
        assert(conn@.comments =~= s.comments);
        assert(p@ == (PostView { published: true, ..s.posts[idx as int] }));
        assert(conn@ == s.publish(post_id as int));
        assert forall|i: int| 0 <= i < conn@.posts.len() implies (#[trigger] conn@.posts[i]).id == i
            + 1 && 1 <= conn@.posts[i].user_id <= conn@.users.len() by {
            if i != idx {
                assert(conn@.posts[i] == s.posts[i]);
            }
        }
    }
    Ok(p)
}

/// Selects the published posts in descending id order: the feed query.
/// Row ids must be dense (which `StoreView::wf` guarantees), so the
/// selected rows also come out with strictly decreasing, hence pairwise
/// distinct, ids, and each selected row is a row of the input.
fn published_desc(posts: &Vec<Post>) -> (out: Vec<Post>)
    requires
        forall|i: int| 0 <= i < posts@.len() ==> (#[trigger] post_views(posts@)[i]).id == i + 1,
    ensures
        post_views(out@) == post_views(posts@).reverse().filter(is_published()),
        forall|i: int|
            0 <= i < out@.len() ==> post_views(posts@).contains(#[trigger] post_views(out@)[i]),
        forall|a: int, b: int|
            0 <= a < b < out@.len() ==> post_views(out@)[a].id > post_views(out@)[b].id,
{
    let ghost v = post_views(posts@);
    let n = posts.len();
    let mut out: Vec<Post> = Vec::new();
    let mut k: usize = n;
    while k > 0
        invariant
            n == posts@.len(),
            v == post_views(posts@),
            forall|i: int| 0 <= i < n ==> (#[trigger] v[i]).id == i + 1,
            k <= n,
            post_views(out@) == v.subrange(k as int, n as int).reverse().filter(is_published()),
            forall|i: int| 0 <= i < out@.len() ==> v.contains(#[trigger] post_views(out@)[i]),
            forall|a: int| 0 <= a < out@.len() ==> (#[trigger] post_views(out@)[a]).id > k as int,
            forall|a: int, b: int|
                0 <= a < b < out@.len() ==> post_views(out@)[a].id > post_views(out@)[b].id,
        decreases k,
    {
        k -= 1;
        let ghost tail_old = v.subrange(k as int + 1, n as int);
        let ghost tail_new = v.subrange(k as int, n as int);
        proof {
            assert(tail_new.reverse() =~= tail_old.reverse().push(v[k as int]));
            lemma_filter_push(tail_old.reverse(), v[k as int], is_published());
        }
        if posts[k].published {
            let ghost before = out@;
            out.push(posts[k].clone());
            proof {
                assert(post_views(out@) =~= post_views(before).push(v[k as int]));
                assert(v.contains(v[k as int]));
            }
        }
    }
    proof {
        assert(v.subrange(0, n as int) =~= v);
    }
    out
}

/// Selects one author's posts, published or not, in descending id order.
/// The same shape as the feed query with the filter on the author key.
fn authored_desc(posts: &Vec<Post>, user_id: i32) -> (out: Vec<Post>)
    requires
        forall|i: int| 0 <= i < posts@.len() ==> (#[trigger] post_views(posts@)[i]).id == i + 1,
    ensures
        post_views(out@) == post_views(posts@).reverse().filter(authored_by(user_id as int)),
        forall|i: int|
            0 <= i < out@.len() ==> post_views(posts@).contains(#[trigger] post_views(out@)[i]),
        forall|a: int, b: int|
            0 <= a < b < out@.len() ==> post_views(out@)[a].id > post_views(out@)[b].id,
{
    let ghost v = post_views(posts@);
    let n = posts.len();
    let mut out: Vec<Post> = Vec::new();
    let mut k: usize = n;
    while k > 0
        invariant
            n == posts@.len(),
            v == post_views(posts@),
            forall|i: int| 0 <= i < n ==> (#[trigger] v[i]).id == i + 1,
            k <= n,
            post_views(out@) == v.subrange(k as int, n as int).reverse().filter(
                authored_by(user_id as int),
            ),
            forall|i: int| 0 <= i < out@.len() ==> v.contains(#[trigger] post_views(out@)[i]),
            forall|a: int| 0 <= a < out@.len() ==> (#[trigger] post_views(out@)[a]).id > k as int,
            forall|a: int, b: int|
                0 <= a < b < out@.len() ==> post_views(out@)[a].id > post_views(out@)[b].id,
        decreases k,
    {
        k -= 1;
        let ghost tail_old = v.subrange(k as int + 1, n as int);
        let ghost tail_new = v.subrange(k as int, n as int);
        proof {
            assert(tail_new.reverse() =~= tail_old.reverse().push(v[k as int]));
            lemma_filter_push(tail_old.reverse(), v[k as int], authored_by(user_id as int));
        }
        if posts[k].user_id == user_id {
            let ghost before = out@;
            out.push(posts[k].clone());
            proof {
                assert(post_views(out@) =~= post_views(before).push(v[k as int]));
                assert(v.contains(v[k as int]));
            }
        }
    }
    proof {
        assert(v.subrange(0, n as int) =~= v);
    }
    out
}

/// Looks the author row of each selected post up, in matching order: the
/// inner join of the feed query.
fn feed_authors(conn: &Store, selected: &Vec<Post>) -> (authors: Vec<User>)
    requires
        conn@.wf(),
        forall|i: int|
            0 <= i < selected@.len() ==> conn@.posts.contains(#[trigger] post_views(selected@)[i]),
    ensures
        authors@.len() == selected@.len(),
        forall|i: int|
            0 <= i < selected@.len() ==> (#[trigger] authors@[i])@ == conn@.author_of(
                post_views(selected@)[i].user_id,
            ),
{
    let mut authors: Vec<User> = Vec::new();
    let mut i: usize = 0;
    while i < selected.len()
        invariant
            conn@.wf(),
            i <= selected@.len(),
            forall|j: int|
                0 <= j < selected@.len() ==> conn@.posts.contains(
                    #[trigger] post_views(selected@)[j],
                ),
            authors@.len() == i,
            forall|j: int|
                0 <= j < i ==> (#[trigger] authors@[j])@ == conn@.author_of(
                    post_views(selected@)[j].user_id,
                ),
        decreases selected@.len() - i,
    {
        proof {
            let pv = post_views(selected@)[i as int];
            let w = choose|w: int| 0 <= w < conn@.posts.len() && conn@.posts[w] == pv;
            assert(1 <= (#[trigger] conn@.posts[w]).user_id <= conn@.users.len());
        }
        let author = conn.users[(selected[i].user_id - 1) as usize].clone();
        authors.push(author);
        i += 1;
    }
    authors
}

/// Loads every comment joined to its author, in store order: the single
/// comment query behind the two-query-plus-group read pattern.
fn join_comment_authors(conn: &Store) -> (joined: Vec<(Comment, User)>)
    requires
        conn@.wf(),
    ensures
        comment_author_views(joined@) == conn@.joined_comments(),
{
    let mut joined: Vec<(Comment, User)> = Vec::new();
    let mut i: usize = 0;
    while i < conn.comments.len()
        invariant
            conn@.wf(),
            i <= conn@.comments.len(),
            joined@.len() == i,
            forall|j: int|
                0 <= j < i ==> comment_author_views(joined@)[j] == #[trigger] conn@.joined_comments()[j],
        decreases conn@.comments.len() - i,
    {
        let comment = conn.comments[i].clone();
        proof {
            assert(comment@ == conn@.comments[i as int]);
            assert(1 <= conn@.comments[i as int].user_id <= conn@.users.len());
        }
        let author = conn.users[(comment.user_id - 1) as usize].clone();
        joined.push((comment, author));
        i += 1;
    }
    proof {
        assert(comment_author_views(joined@) =~= conn@.joined_comments());
    }
    joined
}

/// The ids of the selected posts, in matching order.
fn post_ids(selected: &Vec<Post>) -> (keys: Vec<i32>)
    ensures
        keys@.len() == selected@.len(),
        forall|i: int| 0 <= i < keys@.len() ==> keys@[i] as int == post_views(selected@)[i].id,
{
    let mut keys: Vec<i32> = Vec::new();
    let mut i: usize = 0;
    while i < selected.len()
        invariant
            i <= selected@.len(),
            keys@.len() == i,
            forall|j: int| 0 <= j < i ==> keys@[j] as int == post_views(selected@)[j].id,
        decreases selected@.len() - i,
    {
        keys.push(selected[i].id);
        i += 1;
    }
    keys
}

/// Taking images commutes with grouping: filtering the joined rows by a
/// post key and then taking images is the same as filtering the images.
proof fn lemma_author_views_filter(xs: Seq<(Comment, User)>, post_id: i32)
    ensures
        comment_author_views(xs.filter(belongs_to(post_id))) == comment_author_views(xs).filter(
            comment_on(post_id as int),
        ),
    decreases xs.len(),
{
    if xs.len() == 0 {
        assert(xs.filter(belongs_to(post_id)) =~= Seq::<(Comment, User)>::empty());
        assert(comment_author_views(xs).filter(comment_on(post_id as int)) =~= Seq::<
            (CommentView, UserView),
        >::empty());
        assert(comment_author_views(xs.filter(belongs_to(post_id))) =~= Seq::<
            (CommentView, UserView),
        >::empty());
    } else {
        let prefix = xs.drop_last();
        let last = xs.last();
        lemma_author_views_filter(prefix, post_id);
        assert(prefix.push(last) =~= xs);
        lemma_filter_push(prefix, last, belongs_to(post_id));
        let vprefix = comment_author_views(prefix);
        let vlast = (last.0@, last.1@);
        assert(comment_author_views(xs) =~= vprefix.push(vlast));
        lemma_filter_push(vprefix, vlast, comment_on(post_id as int));
        if belongs_to(post_id)(last) {
            assert(comment_author_views(prefix.filter(belongs_to(post_id)).push(last))
                =~= comment_author_views(prefix.filter(belongs_to(post_id))).push(vlast));
        }
    }
}

/// The canonical feed query: all published posts in descending id order,
/// each joined to its author and to its comments (each comment joined to
/// its own author, comments kept in store order). A post with no comments
/// yields an empty comment sequence, never an error. Two queries are
/// issued — one for the posts with their authors, one for all comments —
/// and the association grouper partitions the comments per post.
pub fn all_posts(conn: &Store) -> (r: Result<
    Vec<((Post, User), Vec<(Comment, User)>)>,
    AppError,
>)
    requires
        conn@.wf(),
    ensures
        r matches Ok(v) && ({
            let feed = conn@.feed();
            &&& v@.len() == feed.len()
            &&& forall|i: int|
                0 <= i < feed.len() ==> {
                    &&& (#[trigger] v@[i]).0.0@ == feed[i]
                    &&& v@[i].0.1@ == conn@.author_of(feed[i].user_id)
                    &&& comment_author_views(v@[i].1@) == conn@.comments_of_post(feed[i].id)
                }
        }),
{
    proof {
        assert(post_views(conn.posts@) == conn@.posts);
    }
    let mut selected = published_desc(&conn.posts);
    let mut authors = feed_authors(conn, &selected);
    let keys = post_ids(&selected);
    proof {
        assert forall|a: int, b: int| 0 <= a < b < keys@.len() implies keys@[a] != keys@[b] by {
            assert(post_views(selected@)[a].id > post_views(selected@)[b].id);
        }
    }
    let joined = join_comment_authors(conn);
    let ghost joined0 = joined@;
    let mut groups = group_comments_by_post(&keys, joined);
    let ghost feed = conn@.feed();
    let ghost sel0 = post_views(selected@);
    let ghost auth0 = authors@;
    let ghost groups0 = groups@;
    let n = selected.len();
    let mut result: Vec<((Post, User), Vec<(Comment, User)>)> = Vec::new();
    let mut i: usize = 0;
    while i < n
        invariant
            i <= n,
            n == sel0.len() && n == auth0.len() && n == groups0.len(),
            selected@.len() == n - i && authors@.len() == n - i && groups@.len() == n - i,
            post_views(selected@) == sel0.subrange(i as int, n as int),
            authors@ == auth0.subrange(i as int, n as int),
            groups@ == groups0.subrange(i as int, n as int),
            result@.len() == i,
            forall|j: int|
                0 <= j < i ==> {
                    &&& (#[trigger] result@[j]).0.0@ == sel0[j]
                    &&& result@[j].0.1 == auth0[j]
                    &&& result@[j].1 == groups0[j]
                },
        decreases n - i,
    {
        let ghost sel_before = selected@;
        let p = selected.remove(0);
        let u = authors.remove(0);
        let cs = groups.remove(0);
        proof {
            assert(selected@ =~= sel_before.subrange(1, sel_before.len() as int));
            assert forall|j: int| 0 <= j < selected@.len() implies post_views(selected@)[j]
                == sel0.subrange(i as int + 1, n as int)[j] by {
                assert(post_views(selected@)[j] == selected@[j]@);
                assert(selected@[j] == sel_before[j + 1]);
                assert(sel_before[j + 1]@ == post_views(sel_before)[j + 1]);
                assert(post_views(sel_before)[j + 1] == sel0[i as int + 1 + j]);
            }
            assert(post_views(selected@) =~= sel0.subrange(i as int + 1, n as int));
            assert(authors@ =~= auth0.subrange(i as int + 1, n as int));
            assert(groups@ =~= groups0.subrange(i as int + 1, n as int));
            assert(p@ == post_views(sel_before)[0]);
            assert(p@ == sel0[i as int]);
        }
        result.push(((p, u), cs));
        i += 1;
    }
    proof {
        assert(sel0 == feed);
        assert forall|j: int| 0 <= j < feed.len() implies comment_author_views(
            (#[trigger] result@[j]).1@,
        ) == conn@.comments_of_post(feed[j].id) by {
            assert(result@[j].1 == groups0[j]);
            assert(groups0[j]@ == joined0.filter(belongs_to(keys@[j])));
            lemma_author_views_filter(joined0, keys@[j]);
            assert(keys@[j] as int == feed[j].id);
        }
    }
    Ok(result)
}

/// One author's posts, published or not, in descending id order, each with
/// its grouped comments: the same two-query-plus-group pattern as the
/// feed, filtered on the author key instead of the published flag.
pub fn user_posts(conn: &Store, user_id: i32) -> (r: Result<
    Vec<(Post, Vec<(Comment, User)>)>,
    AppError,
>)
    requires
        conn@.wf(),
    ensures
        r matches Ok(v) && ({
            let mine = conn@.posts_of_user(user_id as int);
            &&& v@.len() == mine.len()
            &&& forall|i: int|
                0 <= i < mine.len() ==> {
                    &&& (#[trigger] v@[i]).0@ == mine[i]
                    &&& comment_author_views(v@[i].1@) == conn@.comments_of_post(mine[i].id)
                }
        }),
{
    proof {
        assert(post_views(conn.posts@) == conn@.posts);
    }
    let mut selected = authored_desc(&conn.posts, user_id);
    let keys = post_ids(&selected);
    proof {
        assert forall|a: int, b: int| 0 <= a < b < keys@.len() implies keys@[a] != keys@[b] by {
            assert(post_views(selected@)[a].id > post_views(selected@)[b].id);
        }
    }
    let joined = join_comment_authors(conn);
    let ghost joined0 = joined@;
    let mut groups = group_comments_by_post(&keys, joined);
    let ghost mine = conn@.posts_of_user(user_id as int);
    let ghost sel0 = post_views(selected@);
    let ghost groups0 = groups@;
    let n = selected.len();
    let mut result: Vec<(Post, Vec<(Comment, User)>)> = Vec::new();
    let mut i: usize = 0;
    while i < n
        invariant
            i <= n,
            n == sel0.len() && n == groups0.len(),
            selected@.len() == n - i && groups@.len() == n - i,
            post_views(selected@) == sel0.subrange(i as int, n as int),
            groups@ == groups0.subrange(i as int, n as int),
            result@.len() == i,
            forall|j: int|
                0 <= j < i ==> {
                    &&& (#[trigger] result@[j]).0@ == sel0[j]
                    &&& result@[j].1 == groups0[j]
                },
        decreases n - i,
    {
        let ghost sel_before = selected@;
        let p = selected.remove(0);
        let cs = groups.remove(0);
        proof {
            assert(selected@ =~= sel_before.subrange(1, sel_before.len() as int));
            assert forall|j: int| 0 <= j < selected@.len() implies post_views(selected@)[j]
                == sel0.subrange(i as int + 1, n as int)[j] by {
                assert(post_views(selected@)[j] == selected@[j]@);
                assert(selected@[j] == sel_before[j + 1]);
                assert(sel_before[j + 1]@ == post_views(sel_before)[j + 1]);
                assert(post_views(sel_before)[j + 1] == sel0[i as int + 1 + j]);
            }
            assert(post_views(selected@) =~= sel0.subrange(i as int + 1, n as int));
            assert(groups@ =~= groups0.subrange(i as int + 1, n as int));
            assert(p@ == post_views(sel_before)[0]);
            assert(p@ == sel0[i as int]);
        }
        result.push((p, cs));
        i += 1;
    }
    proof {
        assert(sel0 == mine);
        assert forall|j: int| 0 <= j < mine.len() implies comment_author_views(
            (#[trigger] result@[j]).1@,
        ) == conn@.comments_of_post(mine[j].id) by {
            assert(result@[j].1 == groups0[j]);
            assert(groups0[j]@ == joined0.filter(belongs_to(keys@[j])));
            lemma_author_views_filter(joined0, keys@[j]);
            assert(keys@[j] as int == mine[j].id);
        }
    }
    Ok(result)
}

/// The reduced feed query: the published posts in descending id order,
/// each joined to its author, without comment aggregation.
pub fn all_posts_without_comments(conn: &Store) -> (r: Result<Vec<(Post, User)>, AppError>)
    requires
        conn@.wf(),
    ensures
        r matches Ok(v) && ({
            let feed = conn@.feed();
            &&& v@.len() == feed.len()
            &&& forall|i: int|
                0 <= i < feed.len() ==> (#[trigger] v@[i]).0@ == feed[i] && v@[i].1@
                    == conn@.author_of(feed[i].user_id)
        }),
{
    proof {
        assert(post_views(conn.posts@) == conn@.posts);
    }
    let mut selected = published_desc(&conn.posts);
    let mut authors = feed_authors(conn, &selected);
    let ghost feed = conn@.feed();
    let ghost sel0 = post_views(selected@);
    let ghost auth0 = authors@;
    let n = selected.len();
    let mut result: Vec<(Post, User)> = Vec::new();
    let mut i: usize = 0;
    while i < n
        invariant
            i <= n,
            n == sel0.len() && n == auth0.len(),
            selected@.len() == n - i && authors@.len() == n - i,
            post_views(selected@) == sel0.subrange(i as int, n as int),
            authors@ == auth0.subrange(i as int, n as int),
            result@.len() == i,
            forall|j: int|
                0 <= j < i ==> (#[trigger] result@[j]).0@ == sel0[j] && result@[j].1 == auth0[j],
        decreases n - i,
    {
        let ghost sel_before = selected@;
        let p = selected.remove(0);
        let u = authors.remove(0);
        proof {
            assert(selected@ =~= sel_before.subrange(1, sel_before.len() as int));
            assert forall|j: int| 0 <= j < selected@.len() implies post_views(selected@)[j]
                == sel0.subrange(i as int + 1, n as int)[j] by {
                assert(post_views(selected@)[j] == selected@[j]@);
                assert(selected@[j] == sel_before[j + 1]);
                assert(sel_before[j + 1]@ == post_views(sel_before)[j + 1]);
                assert(post_views(sel_before)[j + 1] == sel0[i as int + 1 + j]);
            }
            assert(post_views(selected@) =~= sel0.subrange(i as int + 1, n as int));
            assert(authors@ =~= auth0.subrange(i as int + 1, n as int));
            assert(p@ == post_views(sel_before)[0]);
            assert(p@ == sel0[i as int]);
        }
        result.push((p, u));
        i += 1;
    }
    proof {
        assert(sel0 == feed);
    }
    Ok(result)
}

/// The reduced per-author query: one author's posts in descending id
/// order, without comment aggregation.
pub fn user_posts_without_comments(conn: &Store, user_id: i32) -> (r: Result<Vec<Post>, AppError>)
    requires
        conn@.wf(),
    ensures
        r matches Ok(v) && post_views(v@) == conn@.posts_of_user(user_id as int),
{
    proof {
        assert(post_views(conn.posts@) == conn@.posts);
    }
    let selected = authored_desc(&conn.posts, user_id);
    Ok(selected)
}

/// Law: the feed never carries a post with `published` false, and the
/// comment group attached to a feed entry only carries comments whose
/// `post_id` equals that entry's id.
pub proof fn lemma_feed_shape(s: StoreView)
    ensures
        forall|i: int| 0 <= i < s.feed().len() ==> (#[trigger] s.feed()[i]).published,
        forall|i: int, j: int|
            0 <= i < s.feed().len() && 0 <= j < s.comments_of_post(s.feed()[i].id).len() ==> (
            #[trigger] s.comments_of_post(s.feed()[i].id)[j]).0.post_id == s.feed()[i].id,
{
    assert forall|i: int| 0 <= i < s.feed().len() implies (#[trigger] s.feed()[i]).published by {
        s.posts.reverse().lemma_filter_pred(is_published(), i);
    }
    assert forall|i: int, j: int|
        0 <= i < s.feed().len() && 0 <= j < s.comments_of_post(s.feed()[i].id).len() implies (
    #[trigger] s.comments_of_post(s.feed()[i].id)[j]).0.post_id == s.feed()[i].id by {
        s.joined_comments().lemma_filter_pred(comment_on(s.feed()[i].id), j);
    }
}

/// Filtering keeps a strictly descending id order, and every selected row
/// is a row of the input.
proof fn lemma_filter_keeps_descending(s: Seq<PostView>, pred: spec_fn(PostView) -> bool)
    requires
        forall|a: int, b: int| 0 <= a < b < s.len() ==> s[a].id > s[b].id,
    ensures
        forall|a: int, b: int|
            0 <= a < b < s.filter(pred).len() ==> s.filter(pred)[a].id > s.filter(pred)[b].id,
        forall|i: int|
            0 <= i < s.filter(pred).len() ==> exists|j: int|
                0 <= j < s.len() && #[trigger] s.filter(pred)[i] == s[j],
    decreases s.len(),
{
    reveal(Seq::filter);
    if s.len() != 0 {
        let prefix = s.drop_last();
        let last = s.last();
        lemma_filter_keeps_descending(prefix, pred);
        assert(prefix.push(last) =~= s);
        lemma_filter_push(prefix, last, pred);
        let f = s.filter(pred);
        let fp = prefix.filter(pred);
        assert forall|i: int| 0 <= i < f.len() implies exists|j: int|
            0 <= j < s.len() && #[trigger] f[i] == s[j] by {
            if i < fp.len() {
                let j = choose|j: int| 0 <= j < prefix.len() && #[trigger] fp[i] == prefix[j];
                assert(f[i] == s[j]);
            } else {
                assert(f[i] == s[s.len() - 1]);
            }
        }
        assert forall|a: int, b: int| 0 <= a < b < f.len() implies f[a].id > f[b].id by {
            if b < fp.len() {
                assert(fp[a].id > fp[b].id);
            } else {
                let j = choose|j: int| 0 <= j < prefix.len() && #[trigger] fp[a] == prefix[j];
                assert(f[a] == s[j]);
                assert(f[b] == last);
            }
        }
    }
}

/// Law: the feed and the per-author listing come out ordered by strictly
/// descending post id.
pub proof fn lemma_queries_descend(s: StoreView, user_id: int)
    requires
        s.wf(),
    ensures
        forall|a: int, b: int|
            0 <= a < b < s.feed().len() ==> s.feed()[a].id > s.feed()[b].id,
        forall|a: int, b: int|
            0 <= a < b < s.posts_of_user(user_id).len() ==> s.posts_of_user(user_id)[a].id
                > s.posts_of_user(user_id)[b].id,
{
    let rev = s.posts.reverse();
    assert forall|a: int, b: int| 0 <= a < b < rev.len() implies rev[a].id > rev[b].id by {
        assert(rev[a] == s.posts[s.posts.len() - 1 - a]);
        assert(rev[b] == s.posts[s.posts.len() - 1 - b]);
    }
    lemma_filter_keeps_descending(rev, is_published());
    lemma_filter_keeps_descending(rev, authored_by(user_id));
}

/// Law: publishing is idempotent. Publishing a post id a second time
/// leaves the store exactly as the first publish left it, the row stays
/// well formed, and every field other than `published` keeps its value.
pub proof fn lemma_publish_idempotent(s: StoreView, post_id: int)
    requires
        s.wf(),
    ensures
        s.publish(post_id).wf(),
        s.publish(post_id).publish(post_id) == s.publish(post_id),
        1 <= post_id <= s.posts.len() ==> {
            let p = s.publish(post_id).posts[post_id - 1];
            &&& p.published
            &&& p.id == s.posts[post_id - 1].id
            &&& p.user_id == s.posts[post_id - 1].user_id
            &&& p.title == s.posts[post_id - 1].title
            &&& p.body == s.posts[post_id - 1].body
        },
{
    let s1 = s.publish(post_id);
    if 1 <= post_id <= s.posts.len() {
        assert forall|i: int| 0 <= i < s1.posts.len() implies (#[trigger] s1.posts[i]).id == i + 1
            && 1 <= s1.posts[i].user_id <= s1.users.len() by {
            if i != post_id - 1 {
                assert(s1.posts[i] == s.posts[i]);
            }
        }
        assert(s1.publish(post_id).posts =~= s1.posts);
        assert(s1.publish(post_id) == s1);
    }
}

} // verus!
