//! Verified in-memory implementations of the two store interfaces. They back
//! the service layer in tests and anywhere no external database is wanted;
//! identifiers are assigned from a counter, which is what makes their
//! freshness provable.

use vstd::prelude::*;

use crate::post::{Post, PostView};
use crate::store::{
    PostRepository, StoreError, UserRepository, insert_by_recency, lemma_find_post_by_id_at,
    lemma_find_user_by_email_at, lemma_find_user_by_id_at, lemma_find_user_by_username_at,
    lemma_insert_by_recency_at, list_page, more_recent, post_id_taken, sorted_by_recency,
    unique_post_ids, unique_user_records, user_email_taken, user_id_taken, user_username_taken,
};
use crate::user::{User, UserView};

verus! {

/// An in-memory user store: a vector of records and the next identifier to
/// assign. Every stored identifier lies below the counter, which keeps fresh
/// identifiers provably unused.
pub struct MemUserStore {
    records: Vec<User>,
    next_id: u64,
}

impl MemUserStore {
    /// Whether the identifier counter is exhausted — the one condition under
    /// which an insertion may fail.
    pub closed spec fn ids_exhausted(&self) -> bool {
        self.next_id == u64::MAX
    }

    pub fn new() -> (r: Self)
        ensures
            r.inv(),
            r.users() == Seq::<UserView>::empty(),
            !r.ids_exhausted(),
    {
        let r = MemUserStore { records: Vec::new(), next_id: 0 };
        proof {
            assert(r.users() =~= Seq::<UserView>::empty());
        }
        r
    }
}

impl UserRepository for MemUserStore {
    closed spec fn users(&self) -> Seq<UserView> {
        self.records@.map_values(|u: User| u@)
    }

    closed spec fn inv(&self) -> bool {
        &&& unique_user_records(self.users())
        &&& forall|i: int|
            0 <= i < self.users().len() ==> (#[trigger] self.users()[i]).id < self.next_id
    }

    proof fn inv_unique(&self) {
    }

    fn create(&mut self, username: String, email: String, password_hash: String, now: u64) -> (r: Result<
        User,
        StoreError,
    >)
        ensures
            (user_email_taken(old(self).users(), email@) || user_username_taken(
                old(self).users(),
                username@,
            )) <==> r == Err::<User, StoreError>(StoreError::Conflict),
            r == Err::<User, StoreError>(StoreError::Backend) ==> old(self).ids_exhausted(),
    {
        let ghost prior = old(self).users();
        let n = self.records.len();
        let mut i: usize = 0;
        while i < n
            invariant
                n == self.records.len(),
                self.users() == prior,
                self.inv(),
                0 <= i <= n,
                forall|k: int|
                    0 <= k < i ==> (#[trigger] self.users()[k]).email != email@
                        && (self.users()[k]).username != username@,
            decreases n - i,
        {
            if self.records[i].email == email {
                proof {
                    assert(self.users()[i as int].email == email@);
                    assert(user_email_taken(prior, email@));
                }
                return Err(StoreError::Conflict);
            }
            if self.records[i].username == username {
                proof {
                    assert(self.users()[i as int].username == username@);
                    assert(user_username_taken(prior, username@));
                }
                return Err(StoreError::Conflict);
            }
            i = i + 1;
        }
        if self.next_id == u64::MAX {
            return Err(StoreError::Backend);
        }
        let id = self.next_id;
        let user = User::new(id, username, email, password_hash, now);
        let out = user.duplicate();
        self.records.push(user);
        self.next_id = id + 1;
        proof {
            assert(self.users() =~= prior.push(out@));
            assert(!user_email_taken(prior, email@));
            assert(!user_username_taken(prior, username@));
            assert(!user_id_taken(prior, id));
            assert forall|a: int, b: int| 0 <= a < b < self.users().len() implies
                (#[trigger] self.users()[a]).id != (#[trigger] self.users()[b]).id
                    && (self.users()[a]).username != (self.users()[b]).username
                    && (self.users()[a]).email != (self.users()[b]).email by {
                if b == self.users().len() - 1 {
                    assert(self.users()[a] == prior[a]);
                    assert(self.users()[b] == out@);
                    assert(prior[a].id < id);
                } else {
                    assert(self.users()[a] == prior[a]);
                    assert(self.users()[b] == prior[b]);
                }
            }
        }
        Ok(out)
    }

    fn find_by_email(&self, email: &str) -> (r: Result<Option<User>, StoreError>)
        ensures
            r is Ok,
    {
        let target = email.to_owned();
        let n = self.records.len();
        let mut i: usize = 0;
        while i < n
            invariant
                n == self.records.len(),
                self.inv(),
                target@ == email@,
                0 <= i <= n,
                forall|k: int| 0 <= k < i ==> (#[trigger] self.users()[k]).email != email@,
            decreases n - i,
        {
            if self.records[i].email == target {
                proof {
                    lemma_find_user_by_email_at(self.users(), email@, i as int);
                }
                return Ok(Some(self.records[i].duplicate()));
            }
            i = i + 1;
        }
        proof {
            assert(!user_email_taken(self.users(), email@));
        }
        Ok(None)
    }

    fn find_by_username(&self, username: &str) -> (r: Result<Option<User>, StoreError>)
        ensures
            r is Ok,
    {
        let target = username.to_owned();
        let n = self.records.len();
        let mut i: usize = 0;
        while i < n
            invariant
                n == self.records.len(),
                self.inv(),
                target@ == username@,
                0 <= i <= n,
                forall|k: int| 0 <= k < i ==> (#[trigger] self.users()[k]).username != username@,
            decreases n - i,
        {
            if self.records[i].username == target {
                proof {
                    lemma_find_user_by_username_at(self.users(), username@, i as int);
                }
                return Ok(Some(self.records[i].duplicate()));
            }
            i = i + 1;
        }
        proof {
            assert(!user_username_taken(self.users(), username@));
        }
        Ok(None)
    }

    fn find_by_id(&self, id: u64) -> (r: Result<Option<User>, StoreError>)
        ensures
            r is Ok,
    {
        let n = self.records.len();
        let mut i: usize = 0;
        while i < n
            invariant
                n == self.records.len(),
                self.inv(),
                0 <= i <= n,
                forall|k: int| 0 <= k < i ==> (#[trigger] self.users()[k]).id != id,
            decreases n - i,
        {
            if self.records[i].id == id {
                proof {
                    lemma_find_user_by_id_at(self.users(), id, i as int);
                }
                return Ok(Some(self.records[i].duplicate()));
            }
            i = i + 1;
        }
        proof {
            assert(!user_id_taken(self.users(), id));
        }
        Ok(None)
    }
}

/// An in-memory post store: a vector of records kept ordered by recency —
/// most recent creation first, ties broken by identifier — and the next
/// identifier to assign.
pub struct MemPostStore {
    records: Vec<Post>,
    next_id: u64,
}

impl MemPostStore {
    /// Whether the identifier counter is exhausted — the one condition under
    /// which a creation may fail.
    pub closed spec fn ids_exhausted(&self) -> bool {
        self.next_id == u64::MAX
    }

    pub fn new() -> (r: Self)
        ensures
            r.inv(),
            r.posts() == Seq::<PostView>::empty(),
            !r.ids_exhausted(),
    {
        let r = MemPostStore { records: Vec::new(), next_id: 0 };
        proof {
            assert(r.posts() =~= Seq::<PostView>::empty());
        }
        r
    }
}

impl PostRepository for MemPostStore {
    closed spec fn posts(&self) -> Seq<PostView> {
        self.records@.map_values(|p: Post| p@)
    }

    closed spec fn inv(&self) -> bool {
        &&& unique_post_ids(self.posts())
        &&& sorted_by_recency(self.posts())
        &&& forall|i: int|
            0 <= i < self.posts().len() ==> (#[trigger] self.posts()[i]).id < self.next_id
    }

    proof fn inv_ordered(&self) {
    }

    fn create(&mut self, author_id: u64, title: String, content: String, now: u64) -> (r: Result<
        Post,
        StoreError,
    >)
        ensures
            r is Err ==> old(self).ids_exhausted(),
    {
        let ghost prior = old(self).posts();
        if self.next_id == u64::MAX {
            return Err(StoreError::Backend);
        }
        let n = self.records.len();
        let mut idx: usize = 0;
        while idx < n && self.records[idx].created_at >= now
            invariant
                n == self.records.len(),
                self.posts() == prior,
                self.inv(),
                0 <= idx <= n,
                forall|k: int| 0 <= k < idx ==> (#[trigger] self.posts()[k]).created_at >= now,
            decreases n - idx,
        {
            idx = idx + 1;
        }
        let id = self.next_id;
        let post = Post::new(id, author_id, title, content, now);
        let out = post.duplicate();
        self.records.insert(idx, post);
        self.next_id = id + 1;
        proof {
            lemma_insert_by_recency_at(prior, out@, idx as int);
            assert(self.posts() =~= prior.subrange(0, idx as int) + seq![out@] + prior.skip(
                idx as int,
            ));
            assert(self.posts() == insert_by_recency(prior, out@));
            assert(!post_id_taken(prior, id));
            let current = self.posts();
            assert forall|a: int, b: int| 0 <= a < b < current.len() implies more_recent(
                #[trigger] current[a],
                #[trigger] current[b],
            ) && current[a].id != current[b].id by {
                let ai = if a < idx {
                    a
                } else {
                    a - 1
                };
                let bi = if b < idx {
                    b
                } else {
                    b - 1
                };
                if a < idx {
                    assert(current[a] == prior[a]);
                }
                if b > idx {
                    assert(current[b] == prior[b - 1]);
                }
                if a == idx {
                    assert(current[a] == out@);
                }
                if b == idx {
                    assert(current[b] == out@);
                }
                if a < idx && b < idx {
                    assert(more_recent(prior[a], prior[b]));
                } else if a == idx {
                    assert(prior[bi].created_at < now);
                } else if b == idx {
                    assert(prior[ai].created_at >= now);
                    assert(prior[ai].id < id);
                } else if a > idx && b > idx {
                    assert(more_recent(prior[ai], prior[bi]));
                } else {
                    assert(a < idx && b > idx);
                    assert(more_recent(prior[a], prior[bi]));
                }
            }
        }
        Ok(out)
    }

    fn find_by_id(&self, id: u64) -> (r: Result<Option<Post>, StoreError>)
        ensures
            r is Ok,
    {
        let n = self.records.len();
        let mut i: usize = 0;
        while i < n
            invariant
                n == self.records.len(),
                self.inv(),
                0 <= i <= n,
                forall|k: int| 0 <= k < i ==> (#[trigger] self.posts()[k]).id != id,
            decreases n - i,
        {
            if self.records[i].id == id {
                proof {
                    lemma_find_post_by_id_at(self.posts(), id, i as int);
                }
                return Ok(Some(self.records[i].duplicate()));
            }
            i = i + 1;
        }
        proof {
            assert(!post_id_taken(self.posts(), id));
        }
        Ok(None)
    }

    #[verifier::loop_isolation(false)]
    fn update_post(&mut self, updated: Post) -> (r: Result<(), StoreError>)
        ensures
            r is Ok,
    {
        let ghost prior = old(self).posts();
        let n = self.records.len();
        let mut i: usize = 0;
        while i < n
            invariant
                n == self.records.len(),
                self.posts() == prior,
                self.inv(),
                0 <= i <= n,
                forall|k: int| 0 <= k < i ==> (#[trigger] self.posts()[k]).id != updated@.id,
            decreases n - i,
        {
            if self.records[i].id == updated.id {
                proof {
                    lemma_find_post_by_id_at(prior, updated@.id, i as int);
                }
                self.records.set(i, updated);
                proof {
                    assert(self.posts() =~= prior.update(i as int, updated@));
                    let current = self.posts();
                    assert forall|a: int, b: int| 0 <= a < b < current.len() implies more_recent(
                        #[trigger] current[a],
                        #[trigger] current[b],
                    ) && current[a].id != current[b].id by {
                        assert(more_recent(prior[a], prior[b]));
                        assert(prior[a].id != prior[b].id);
                        if a == i {
                            assert(current[a] == updated@);
                        } else {
                            assert(current[a] == prior[a]);
                        }
                        if b == i {
                            assert(current[b] == updated@);
                        } else {
                            assert(current[b] == prior[b]);
                        }
                        assert(current[a].id == prior[a].id && current[a].created_at
                            == prior[a].created_at);
                        assert(current[b].id == prior[b].id && current[b].created_at
                            == prior[b].created_at);
                    }
                }
                return Ok(());
            }
            i = i + 1;
        }
        Err(StoreError::Backend)
    }

    #[verifier::loop_isolation(false)]
    fn delete_post(&mut self, id: u64) -> (r: Result<(), StoreError>)
        ensures
            r is Ok,
    {
        let ghost prior = old(self).posts();
        let n = self.records.len();
        let mut i: usize = 0;
        while i < n
            invariant
                n == self.records.len(),
                self.posts() == prior,
                self.inv(),
                0 <= i <= n,
                forall|k: int| 0 <= k < i ==> (#[trigger] self.posts()[k]).id != id,
            decreases n - i,
        {
            if self.records[i].id == id {
                proof {
                    lemma_find_post_by_id_at(prior, id, i as int);
                }
                self.records.remove(i);
                proof {
                    assert(self.posts() =~= prior.remove(i as int));
                    let current = self.posts();
                    assert forall|a: int, b: int| 0 <= a < b < current.len() implies more_recent(
                        #[trigger] current[a],
                        #[trigger] current[b],
                    ) && current[a].id != current[b].id by {
                        let ai = if a < i {
                            a
                        } else {
                            a + 1
                        };
                        let bi = if b < i {
                            b
                        } else {
                            b + 1
                        };
                        assert(current[a] == prior[ai]);
                        assert(current[b] == prior[bi]);
                        assert(more_recent(prior[ai], prior[bi]));
                    }
                }
                return Ok(());
            }
            i = i + 1;
        }
        Err(StoreError::Backend)
    }

    fn get_posts(&self, limit: usize, offset: usize) -> (r: Result<Vec<Post>, StoreError>)
        ensures
            r is Ok,
    {
        let n = self.records.len();
        let mut out: Vec<Post> = Vec::new();
        if offset >= n {
            proof {
                assert(out@.map_values(|p: Post| p@) =~= list_page(
                    self.posts(),
                    limit as int,
                    offset as int,
                ));
            }
            return Ok(out);
        }
        let mut i: usize = offset;
        while i < n && out.len() < limit
            invariant
                n == self.records.len(),
                self.inv(),
                offset <= i <= n,
                out@.len() == i - offset,
                out@.len() <= limit,
                out@.map_values(|p: Post| p@) == self.posts().subrange(offset as int, i as int),
            decreases n - i,
        {
            out.push(self.records[i].duplicate());
            proof {
                assert(out@.map_values(|p: Post| p@) =~= self.posts().subrange(
                    offset as int,
                    i + 1 as int,
                ));
            }
            i = i + 1;
        }
        proof {
            assert(out@.map_values(|p: Post| p@) =~= list_page(
                self.posts(),
                limit as int,
                offset as int,
            ));
        }
        Ok(out)
    }
}

} // verus!
