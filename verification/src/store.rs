//! The credential store's two interfaces — users and posts — stated over a
//! mathematical model: a sequence of user records and a sequence of post
//! records ordered by recency. Storage backends implement these interfaces;
//! the service layer is verified against the contracts alone. An in-memory
//! implementation lives in this crate and is itself verified.

use vstd::prelude::*;

use crate::post::{Post, PostView};
use crate::user::{User, UserView};

verus! {

/// How the credential store fails: a uniqueness-constraint violation on
/// insertion, or any other backend failure (connection loss, timeout),
/// reported opaquely.
#[derive(Debug, Clone, Copy, PartialEq, Eq, Structural)]
pub enum StoreError {
    Conflict,
    Backend,
}

/// Some user record carries exactly this email.
pub open spec fn user_email_taken(users: Seq<UserView>, email: Seq<char>) -> bool {
    exists|i: int| #![trigger users[i]] 0 <= i < users.len() && users[i].email == email
}

/// Some user record carries exactly this username.
pub open spec fn user_username_taken(users: Seq<UserView>, username: Seq<char>) -> bool {
    exists|i: int| #![trigger users[i]] 0 <= i < users.len() && users[i].username == username
}

/// Some user record carries this identifier.
pub open spec fn user_id_taken(users: Seq<UserView>, id: u64) -> bool {
    exists|i: int| #![trigger users[i]] 0 <= i < users.len() && users[i].id == id
}

/// The user carrying exactly this email, if any. Well-formed stores keep
/// emails unique, so the record is determined.
pub open spec fn find_user_by_email(users: Seq<UserView>, email: Seq<char>) -> Option<UserView> {
    if user_email_taken(users, email) {
        Some(users[choose|i: int| 0 <= i < users.len() && users[i].email == email])
    } else {
        None
    }
}

/// The user carrying exactly this username, if any.
pub open spec fn find_user_by_username(users: Seq<UserView>, username: Seq<char>) -> Option<UserView> {
    if user_username_taken(users, username) {
        Some(users[choose|i: int| 0 <= i < users.len() && users[i].username == username])
    } else {
        None
    }
}

/// The user carrying this identifier, if any.
pub open spec fn find_user_by_id(users: Seq<UserView>, id: u64) -> Option<UserView> {
    if user_id_taken(users, id) {
        Some(users[choose|i: int| 0 <= i < users.len() && users[i].id == id])
    } else {
        None
    }
}

/// No two user records share an identifier, a username or an email.
pub open spec fn unique_user_records(users: Seq<UserView>) -> bool {
    forall|i: int, j: int|
        #![trigger users[i], users[j]]
        0 <= i < j < users.len() ==> users[i].id != users[j].id
            && users[i].username != users[j].username && users[i].email != users[j].email
}

/// Some post record carries this identifier.
pub open spec fn post_id_taken(posts: Seq<PostView>, id: u64) -> bool {
    exists|i: int| #![trigger posts[i]] 0 <= i < posts.len() && posts[i].id == id
}

/// The position of a post carrying this identifier; meaningful only where
/// one exists, and determined there since well-formed stores keep
/// identifiers unique.
pub open spec fn post_idx_by_id(posts: Seq<PostView>, id: u64) -> int {
    choose|i: int| 0 <= i < posts.len() && posts[i].id == id
}

/// The post carrying this identifier, if any.
pub open spec fn find_post_by_id(posts: Seq<PostView>, id: u64) -> Option<PostView> {
    if post_id_taken(posts, id) {
        Some(posts[post_idx_by_id(posts, id)])
    } else {
        None
    }
}

/// No two post records share an identifier.
pub open spec fn unique_post_ids(posts: Seq<PostView>) -> bool {
    forall|i: int, j: int|
        #![trigger posts[i], posts[j]]
        0 <= i < j < posts.len() ==> posts[i].id != posts[j].id
}

/// `a` sorts before `b`: created later, or created at the same instant and
/// carrying the smaller identifier.
pub open spec fn more_recent(a: PostView, b: PostView) -> bool {
    a.created_at > b.created_at || (a.created_at == b.created_at && a.id < b.id)
}

/// Most recent creation first; ties broken deterministically by identifier
/// order.
pub open spec fn sorted_by_recency(posts: Seq<PostView>) -> bool {
    forall|i: int, j: int|
        #![trigger posts[i], posts[j]]
        0 <= i < j < posts.len() ==> more_recent(posts[i], posts[j])
}

/// Where a fresh post lands in a recency-ordered sequence: before the first
/// record created strictly earlier. A fresh post's identifier is larger than
/// every stored one, so among records created at the same instant it comes
/// last.
pub open spec fn insert_by_recency(posts: Seq<PostView>, p: PostView) -> Seq<PostView>
    decreases posts.len(),
{
    if posts.len() == 0 {
        seq![p]
    } else if posts[0].created_at >= p.created_at {
        seq![posts[0]] + insert_by_recency(posts.drop_first(), p)
    } else {
        seq![p] + posts
    }
}

/// The page of a recency-ordered sequence starting at `offset`, at most
/// `limit` records long.
pub open spec fn list_page(posts: Seq<PostView>, limit: int, offset: int) -> Seq<PostView> {
    if offset < 0 || limit < 0 || offset >= posts.len() {
        Seq::empty()
    } else if limit <= posts.len() - offset {
        posts.skip(offset).take(limit)
    } else {
        posts.skip(offset)
    }
}

/// In a store with unique emails, a record carrying the email at any
/// position is the one the lookup returns.
pub proof fn lemma_find_user_by_email_at(users: Seq<UserView>, email: Seq<char>, i: int)
    requires
        unique_user_records(users),
        0 <= i < users.len(),
        users[i].email == email,
    ensures
        find_user_by_email(users, email) == Some(users[i]),
{
    assert(user_email_taken(users, email));
    let j = choose|j: int| 0 <= j < users.len() && users[j].email == email;
    if j < i {
        assert(users[j].email != users[i].email);
    } else if i < j {
        assert(users[i].email != users[j].email);
    }
}

/// In a store with unique usernames, a record carrying the username at any
/// position is the one the lookup returns.
pub proof fn lemma_find_user_by_username_at(users: Seq<UserView>, username: Seq<char>, i: int)
    requires
        unique_user_records(users),
        0 <= i < users.len(),
        users[i].username == username,
    ensures
        find_user_by_username(users, username) == Some(users[i]),
{
    assert(user_username_taken(users, username));
    let j = choose|j: int| 0 <= j < users.len() && users[j].username == username;
    if j < i {
        assert(users[j].username != users[i].username);
    } else if i < j {
        assert(users[i].username != users[j].username);
    }
}

/// In a store with unique identifiers, a record carrying the identifier at
/// any position is the one the lookup returns.
pub proof fn lemma_find_user_by_id_at(users: Seq<UserView>, id: u64, i: int)
    requires
        unique_user_records(users),
        0 <= i < users.len(),
        users[i].id == id,
    ensures
        find_user_by_id(users, id) == Some(users[i]),
{
    assert(user_id_taken(users, id));
    let j = choose|j: int| 0 <= j < users.len() && users[j].id == id;
    if j < i {
        assert(users[j].id != users[i].id);
    } else if i < j {
        assert(users[i].id != users[j].id);
    }
}

/// In a store with unique identifiers, a record carrying the identifier at
/// any position is the one the lookup returns, and its position is the one
/// the index function names.
pub proof fn lemma_find_post_by_id_at(posts: Seq<PostView>, id: u64, i: int)
    requires
        unique_post_ids(posts),
        0 <= i < posts.len(),
        posts[i].id == id,
    ensures
        post_idx_by_id(posts, id) == i,
        find_post_by_id(posts, id) == Some(posts[i]),
{
    assert(post_id_taken(posts, id));
    let j = post_idx_by_id(posts, id);
    if j < i {
        assert(posts[j].id != posts[i].id);
    } else if i < j {
        assert(posts[i].id != posts[j].id);
    }
}

/// Where a fresh record's creation instant separates the sequence — every
/// record before `idx` created no earlier, every record from `idx` on created
/// strictly earlier — the recency insertion is exactly the splice at `idx`.
pub proof fn lemma_insert_by_recency_at(posts: Seq<PostView>, p: PostView, idx: int)
    requires
        0 <= idx <= posts.len(),
        forall|k: int| #![trigger posts[k]] 0 <= k < idx ==> posts[k].created_at >= p.created_at,
        idx < posts.len() ==> posts[idx].created_at < p.created_at,
    ensures
        insert_by_recency(posts, p) == posts.subrange(0, idx) + seq![p] + posts.skip(idx),
    decreases posts.len(),
{
    if posts.len() == 0 {
        assert(insert_by_recency(posts, p) =~= posts.subrange(0, idx) + seq![p] + posts.skip(idx));
    } else if idx == 0 {
        assert(insert_by_recency(posts, p) =~= posts.subrange(0, 0) + seq![p] + posts.skip(0));
    } else {
        let rest = posts.drop_first();
        assert(forall|k: int| #![trigger rest[k]] 0 <= k < idx - 1 ==> rest[k].created_at >= p.created_at) by {
            assert(forall|k: int| 0 <= k < idx - 1 ==> rest[k] == posts[k + 1]);
        }
        assert(idx - 1 < rest.len() ==> rest[idx - 1].created_at < p.created_at);
        lemma_insert_by_recency_at(rest, p, idx - 1);
        assert(insert_by_recency(posts, p) =~= posts.subrange(0, idx) + seq![p] + posts.skip(idx));
    }
}

/// The user-facing interface of the credential store. Reads report the
/// record the model holds; insertion either appends a record with a fresh
/// identifier or reports why it could not; any failure leaves the store
/// unchanged. A backend failure can surface on any call.
pub trait UserRepository: Sized {
    /// All user records, in insertion order.
    spec fn users(&self) -> Seq<UserView>;

    /// The store's internal well-formedness.
    spec fn inv(&self) -> bool;

    /// Well-formedness keeps identifiers, usernames and emails unique.
    proof fn inv_unique(&self)
        requires
            self.inv(),
        ensures
            unique_user_records(self.users()),
    ;

    /// Creates a user with a store-assigned fresh identifier; reports a
    /// uniqueness violation on the email or username as a conflict.
    fn create(&mut self, username: String, email: String, password_hash: String, now: u64) -> (r: Result<
        User,
        StoreError,
    >)
        requires
            old(self).inv(),
        ensures
            final(self).inv(),
            match r {
                Ok(u) => {
                    &&& u@.username == username@
                    &&& u@.email == email@
                    &&& u@.password_hash == password_hash@
                    &&& u@.created_at == now
                    &&& find_user_by_email(old(self).users(), email@) is None
                    &&& find_user_by_username(old(self).users(), username@) is None
                    &&& find_user_by_id(old(self).users(), u@.id) is None
                    &&& final(self).users() == old(self).users().push(u@)
                },
                Err(StoreError::Conflict) => {
                    &&& final(self).users() == old(self).users()
                    &&& find_user_by_email(old(self).users(), email@) is Some
                        || find_user_by_username(old(self).users(), username@) is Some
                },
                Err(StoreError::Backend) => final(self).users() == old(self).users(),
            },
    ;

    fn find_by_email(&self, email: &str) -> (r: Result<Option<User>, StoreError>)
        requires
            self.inv(),
        ensures
            match r {
                Ok(found) => match found {
                    Some(u) => find_user_by_email(self.users(), email@) == Some(u@),
                    None => find_user_by_email(self.users(), email@) is None,
                },
                Err(e) => e is Backend,
            },
    ;

    fn find_by_username(&self, username: &str) -> (r: Result<Option<User>, StoreError>)
        requires
            self.inv(),
        ensures
            match r {
                Ok(found) => match found {
                    Some(u) => find_user_by_username(self.users(), username@) == Some(u@),
                    None => find_user_by_username(self.users(), username@) is None,
                },
                Err(e) => e is Backend,
            },
    ;

    fn find_by_id(&self, id: u64) -> (r: Result<Option<User>, StoreError>)
        requires
            self.inv(),
        ensures
            match r {
                Ok(found) => match found {
                    Some(u) => find_user_by_id(self.users(), id) == Some(u@),
                    None => find_user_by_id(self.users(), id) is None,
                },
                Err(e) => e is Backend,
            },
    ;
}

/// The post-facing interface of the credential store. The model is kept
/// ordered by recency, so a page read is a contiguous slice of it. Mutations
/// that fail leave the store unchanged; a backend failure can surface on any
/// call.
pub trait PostRepository: Sized {
    /// All post records, most recent creation first.
    spec fn posts(&self) -> Seq<PostView>;

    /// The store's internal well-formedness.
    spec fn inv(&self) -> bool;

    /// Well-formedness keeps identifiers unique and the records ordered by
    /// recency.
    proof fn inv_ordered(&self)
        requires
            self.inv(),
        ensures
            unique_post_ids(self.posts()),
            sorted_by_recency(self.posts()),
    ;

    /// Creates a post with a store-assigned fresh identifier and both
    /// timestamps equal to `now`.
    fn create(&mut self, author_id: u64, title: String, content: String, now: u64) -> (r: Result<
        Post,
        StoreError,
    >)
        requires
            old(self).inv(),
        ensures
            final(self).inv(),
            match r {
                Ok(p) => {
                    &&& p@.author_id == author_id
                    &&& p@.title == title@
                    &&& p@.content == content@
                    &&& p@.created_at == now
                    &&& p@.updated_at == now
                    &&& find_post_by_id(old(self).posts(), p@.id) is None
                    &&& final(self).posts() == insert_by_recency(old(self).posts(), p@)
                },
                Err(e) => final(self).posts() == old(self).posts() && e is Backend,
            },
    ;

    fn find_by_id(&self, id: u64) -> (r: Result<Option<Post>, StoreError>)
        requires
            self.inv(),
        ensures
            match r {
                Ok(found) => match found {
                    Some(p) => find_post_by_id(self.posts(), id) == Some(p@),
                    None => find_post_by_id(self.posts(), id) is None,
                },
                Err(e) => e is Backend,
            },
    ;

    /// Replaces the stored record that shares `updated`'s identifier. The
    /// caller keeps the identifier, the author and the creation instant
    /// unchanged, so the ordering of the store is untouched.
    fn update_post(&mut self, updated: Post) -> (r: Result<(), StoreError>)
        requires
            old(self).inv(),
            post_id_taken(old(self).posts(), updated@.id),
            old(self).posts()[post_idx_by_id(old(self).posts(), updated@.id)].author_id
                == updated@.author_id,
            old(self).posts()[post_idx_by_id(old(self).posts(), updated@.id)].created_at
                == updated@.created_at,
        ensures
            final(self).inv(),
            match r {
                Ok(()) => final(self).posts() == old(self).posts().update(
                    post_idx_by_id(old(self).posts(), updated@.id),
                    updated@,
                ),
                Err(e) => final(self).posts() == old(self).posts() && e is Backend,
            },
    ;

    /// Removes the record carrying this identifier. Deletion is final.
    fn delete_post(&mut self, id: u64) -> (r: Result<(), StoreError>)
        requires
            old(self).inv(),
            post_id_taken(old(self).posts(), id),
        ensures
            final(self).inv(),
            match r {
                Ok(()) => final(self).posts() == old(self).posts().remove(
                    post_idx_by_id(old(self).posts(), id),
                ),
                Err(e) => final(self).posts() == old(self).posts() && e is Backend,
            },
    ;

    /// The page of posts from `offset`, at most `limit` long, in store
    /// order.
    fn get_posts(&self, limit: usize, offset: usize) -> (r: Result<Vec<Post>, StoreError>)
        requires
            self.inv(),
        ensures
            match r {
                Ok(v) => v@.map_values(|p: Post| p@) == list_page(
                    self.posts(),
                    limit as int,
                    offset as int,
                ),
                Err(e) => e is Backend,
            },
    ;
}

} // verus!
