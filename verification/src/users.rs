//! The user repository: create a user inside a transaction and look a user
//! up by username or by id.

use vstd::prelude::*;

use crate::errors::AppError;
use crate::models::{User, UserKey, UserView};
use crate::store::{Store, StoreView};

verus! {

/// Relies on `str`'s `PartialEq`: two string slices compare equal exactly
/// when their characters do.
#[verifier::external_body]
fn str_eq(a: &str, b: &str) -> (r: bool)
    ensures
        r == (a@ == b@),
{
    a == b
}

/// Creates a user row inside one transaction: insert, then read the
/// just-inserted row back (the row with the greatest id) and return it.
/// The store's uniqueness constraint on usernames rejects a duplicate with
/// `RecordAlreadyExists`; the id space running out is a storage fault.
pub fn create_user(conn: &mut Store, username: &str) -> (r: Result<User, AppError>)
    requires
        old(conn)@.wf(),
    ensures
        final(conn)@.wf(),
        ({
            let s = old(conn)@;
            if s.username_taken(username@) {
                &&& final(conn)@ == s
                &&& r matches Err(e) && e == AppError::RecordAlreadyExists
            } else if s.users.len() >= i32::MAX as int {
                &&& final(conn)@ == s
                &&& r matches Err(e) && e is DatabaseError
            } else {
                &&& r matches Ok(u)
                &&& u@ == (UserView { id: s.users.len() as int + 1, username: username@ })
                &&& final(conn)@ == (StoreView { users: s.users.push(u@), ..s })
            }
        }),
{
    let ghost s = conn@;
    let mut i: usize = 0;
    while i < conn.users.len()
        invariant
            *conn == *old(conn),
            s == conn@,
            s.wf(),
            i <= s.users.len(),
            forall|j: int| 0 <= j < i ==> (#[trigger] s.users[j]).username != username@,
        decreases s.users.len() - i,
    {
        if str_eq(conn.users[i].username.as_str(), username) {
            assert((#[trigger] s.users[i as int]).username == username@);
            assert(s.username_taken(username@));
            return Err(AppError::RecordAlreadyExists);
        }
        i += 1;
    }
    assert(!s.username_taken(username@));
    if conn.users.len() >= (i32::MAX as usize) {
        return Err(AppError::DatabaseError("user id space exhausted".to_owned()));
    }
    let id: i32 = (conn.users.len() + 1) as i32;
    conn.users.push(User { id, username: username.to_owned() });
    let last: usize = conn.users.len() - 1;
    let u = conn.users[last].clone();
    proof {
        assert(conn@.users =~= s.users.push(u@));
        assert(conn@.posts =~= s.posts);
        assert(conn@.comments =~= s.comments);
        assert(conn@ == (StoreView { users: s.users.push(u@), ..s }));
    }
    Ok(u)
}

/// Looks a user up by username or by id. A key that matches no committed
/// row yields `RecordNotFound`.
pub fn find_user<'a>(conn: &Store, key: UserKey<'a>) -> (r: Result<User, AppError>)
    requires
        conn@.wf(),
    ensures
        key matches UserKey::Username(name) ==> {
            if conn@.username_taken(name@) {
                r matches Ok(u) && conn@.users.contains(u@) && u@.username == name@
            } else {
                r matches Err(e) && e == AppError::RecordNotFound
            }
        },
        key matches UserKey::Id(id) ==> {
            if 1 <= id && id as int <= conn@.users.len() {
                r matches Ok(u) && u@ == conn@.users[id as int - 1]
            } else {
                r matches Err(e) && e == AppError::RecordNotFound
            }
        },
{
    match &key {
        UserKey::Username(name) => {
            let mut i: usize = 0;
            while i < conn.users.len()
                invariant
                    conn@.wf(),
                    key matches UserKey::Username(nm) && nm == *name,
                    i <= conn@.users.len(),
                    forall|j: int| 0 <= j < i ==> (#[trigger] conn@.users[j]).username != name@,
                decreases conn@.users.len() - i,
            {
                if str_eq(conn.users[i].username.as_str(), name) {
                    let u = conn.users[i].clone();
                    assert(u@ == conn@.users[i as int]);
                    assert(conn@.users.contains(u@));
                    assert(conn@.username_taken(name@));
                    assert(u@.username == name@);
                    return Ok(u);
                }
                i += 1;
            }
            Err(AppError::RecordNotFound)
        },
        UserKey::Id(id) => {
            let id: i32 = *id;
            if 1 <= id && ((id - 1) as usize) < conn.users.len() {
                Ok(conn.users[(id - 1) as usize].clone())
            } else {
                Err(AppError::RecordNotFound)
            }
        },
    }
}

/// Law: creating a user takes its username and assigns a genuinely fresh
/// id. In the state after the insert the username is taken, so a second
/// `create_user` with the same name returns `RecordAlreadyExists` by
/// `create_user`'s contract; and no committed row carried the new id
/// before.
pub proof fn lemma_created_username_taken(s: StoreView, u: UserView)
    requires
        s.wf(),
        !s.username_taken(u.username),
        u.id == s.users.len() + 1,
    ensures
        (StoreView { users: s.users.push(u), ..s }).username_taken(u.username),
        forall|i: int| 0 <= i < s.users.len() ==> (#[trigger] s.users[i]).id != u.id,
{
    let s2 = StoreView { users: s.users.push(u), ..s };
    assert(s2.users[s.users.len() as int] == u);
    assert(s2.username_taken(u.username));
}

/// Law: for any committed user row `u`, looking it up by its username and
/// looking it up by its id both name `u` itself: usernames are unique, so
/// the only row carrying `u`'s username is `u`, and ids are dense, so the
/// row at index `u.id - 1` is `u`. Together with `find_user`'s contract,
/// both lookups return a value equal to `u`.
pub proof fn lemma_find_created_user(s: StoreView, i: int)
    requires
        s.wf(),
        0 <= i < s.users.len(),
    ensures
        ({
            let u = s.users[i];
            &&& s.username_taken(u.username)
            &&& 1 <= u.id <= s.users.len()
            &&& s.users[u.id - 1] == u
            &&& forall|j: int|
                0 <= j < s.users.len() && (#[trigger] s.users[j]).username == u.username
                    ==> s.users[j] == u
        }),
{
    let u = s.users[i];
    assert(u.id == i + 1);
    assert forall|j: int|
        0 <= j < s.users.len() && (#[trigger] s.users[j]).username == u.username implies s.users[j]
        == u by {
        if j != i {
            assert(s.users[j].username != s.users[i].username);
        }
    }
}

/// Law: an id that was never assigned is exactly one outside `1..=len`:
/// some committed row carries id `n` if and only if `n` is in that range.
/// For an unassigned `n`, `find_user` with that id therefore returns
/// `RecordNotFound` by its contract.
pub proof fn lemma_unassigned_id(s: StoreView, n: int)
    requires
        s.wf(),
    ensures
        (exists|i: int| 0 <= i < s.users.len() && (#[trigger] s.users[i]).id == n) <==> (1 <= n
            <= s.users.len()),
{
    if 1 <= n <= s.users.len() {
        assert(s.users[n - 1].id == n);
    }
}

} // verus!
