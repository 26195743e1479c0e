//! Post CRUD orchestration: pagination with clamped limits, and mutation
//! guarded by an existence-then-ownership check, so an authorization failure
//! is never reported for a post that does not exist.

use vstd::prelude::*;

use crate::dto::UpdatePostRequest;
use crate::error::DomainError;
use crate::post::{Post, PostView};
use crate::store::{
    PostRepository, find_post_by_id, insert_by_recency, list_page, post_idx_by_id,
    sorted_by_recency, unique_post_ids,
};

verus! {

/// How many posts a page holds when the caller names no usable limit.
pub const DEFAULT_PAGE_SIZE: usize = 10;

/// The most posts one page may hold; larger limits are silently capped.
pub const MAX_PAGE_SIZE: usize = 100;

/// The page size a listing falls back to.
pub fn default_page_size() -> (r: usize)
    ensures
        r == DEFAULT_PAGE_SIZE,
{
    DEFAULT_PAGE_SIZE
}

/// The limit a listing actually uses: absent or zero falls back to the
/// default, anything above the cap is capped, the rest passes through.
pub open spec fn spec_effective_limit(limit: Option<usize>) -> usize {
    match limit {
        None => DEFAULT_PAGE_SIZE,
        Some(l) => if l == 0 {
            DEFAULT_PAGE_SIZE
        } else if l > MAX_PAGE_SIZE {
            MAX_PAGE_SIZE
        } else {
            l
        },
    }
}

pub fn effective_limit(limit: Option<usize>) -> (r: usize)
    ensures
        r == spec_effective_limit(limit),
{
    match limit {
        None => DEFAULT_PAGE_SIZE,
        Some(l) => {
            if l == 0 {
                DEFAULT_PAGE_SIZE
            } else if l > MAX_PAGE_SIZE {
                MAX_PAGE_SIZE
            } else {
                l
            }
        },
    }
}

/// The offset a listing actually uses: absent means the start.
pub open spec fn spec_effective_offset(offset: Option<usize>) -> usize {
    match offset {
        None => 0,
        Some(o) => o,
    }
}

/// What the existence-then-ownership check decides for a mutation: the post
/// must exist (else not-found, reported first), and the caller must be its
/// author (else forbidden). `None` means the mutation is authorized.
pub open spec fn ownership_gate(posts: Seq<PostView>, caller_id: u64, post_id: u64) -> Option<
    DomainError,
> {
    match find_post_by_id(posts, post_id) {
        None => Some(DomainError::PostNotFound(post_id)),
        Some(p) => if p.author_id != caller_id {
            Some(DomainError::Forbidden)
        } else {
            None
        },
    }
}

/// The view of an optional owned text.
pub open spec fn opt_str_view(o: Option<String>) -> Option<Seq<char>> {
    match o {
        Some(s) => Some(s@),
        None => None,
    }
}

/// A patched post: fields left unset keep their stored value, the update
/// instant is refreshed, and identifier, author and creation instant never
/// change.
pub open spec fn apply_patch(
    p: PostView,
    title: Option<Seq<char>>,
    content: Option<Seq<char>>,
    now: u64,
) -> PostView {
    PostView {
        id: p.id,
        author_id: p.author_id,
        title: match title {
            Some(t) => t,
            None => p.title,
        },
        content: match content {
            Some(c) => c,
            None => p.content,
        },
        created_at: p.created_at,
        updated_at: now,
    }
}

/// Post orchestration over an injected post store.
pub struct PostService<R: PostRepository> {
    repo: R,
}

impl<R: PostRepository> PostService<R> {
    /// The post records the service sees, most recent creation first.
    pub closed spec fn posts(&self) -> Seq<PostView> {
        self.repo.posts()
    }

    pub closed spec fn inv(&self) -> bool {
        self.repo.inv()
    }

    pub fn new(repo: R) -> (r: Self)
        ensures
            r.posts() == repo.posts(),
            r.inv() == repo.inv(),
    {
        PostService { repo }
    }

    /// The model a well-formed service reads is ordered by recency with
    /// unique identifiers — so every page it hands out is too.
    pub proof fn model_ordered(&self)
        requires
            self.inv(),
        ensures
            sorted_by_recency(self.posts()),
            unique_post_ids(self.posts()),
    {
        self.repo.inv_ordered();
    }

    pub fn get_post(&self, id: u64) -> (r: Result<Post, DomainError>)
        requires
            self.inv(),
        ensures
            match r {
                Ok(p) => find_post_by_id(self.posts(), id) == Some(p@),
                Err(e) => match e {
                    DomainError::PostNotFound(missing) => missing == id && find_post_by_id(
                        self.posts(),
                        id,
                    ) is None,
                    DomainError::Internal => true,
                    _ => false,
                },
            },
    {
        match self.repo.find_by_id(id) {
            Ok(Some(p)) => Ok(p),
            Ok(None) => Err(DomainError::PostNotFound(id)),
            Err(_) => Err(DomainError::Internal),
        }
    }

    /// The requested page, in recency order. An absent or zero limit means
    /// the default page size; a limit above the cap is capped; an absent
    /// offset means the start.
    pub fn get_posts(&self, limit: Option<usize>, offset: Option<usize>) -> (r: Result<
        Vec<Post>,
        DomainError,
    >)
        requires
            self.inv(),
        ensures
            match r {
                Ok(v) => v@.map_values(|p: Post| p@) == list_page(
                    self.posts(),
                    spec_effective_limit(limit) as int,
                    spec_effective_offset(offset) as int,
                ),
                Err(e) => e == DomainError::Internal,
            },
    {
        let l = effective_limit(limit);
        let o = match offset {
            Some(o) => o,
            None => 0,
        };
        match self.repo.get_posts(l, o) {
            Ok(v) => Ok(v),
            Err(_) => Err(DomainError::Internal),
        }
    }

    /// Creates a post for an authenticated author: the store assigns a fresh
    /// identifier, both timestamps are `now`, and the record takes its place
    /// in recency order.
    pub fn create_post(&mut self, author_id: u64, title: String, content: String, now: u64) -> (r: Result<
        Post,
        DomainError,
    >)
        requires
            old(self).inv(),
        ensures
            final(self).inv(),
            match r {
                Ok(p) => {
                    &&& p@.author_id == author_id
                    &&& p@.title == title@
                    &&& p@.content == content@
                    &&& p@.created_at == now
                    &&& p@.updated_at == now
                    &&& find_post_by_id(old(self).posts(), p@.id) is None
                    &&& final(self).posts() == insert_by_recency(old(self).posts(), p@)
                },
                Err(e) => final(self).posts() == old(self).posts() && e == DomainError::Internal,
            },
    {
        match self.repo.create(author_id, title, content, now) {
            Ok(p) => Ok(p),
            Err(_) => Err(DomainError::Internal),
        }
    }

    /// Applies a partial update. Existence is checked before ownership, so a
    /// forbidden result is never returned for a nonexistent post; fields left
    /// unset keep their stored value; on success the update instant is
    /// refreshed to `now` and everything else about the store is unchanged.
    pub fn update_post(
        &mut self,
        caller_id: u64,
        post_id: u64,
        update: &UpdatePostRequest,
        now: u64,
    ) -> (r: Result<Post, DomainError>)
        requires
            old(self).inv(),
        ensures
            final(self).inv(),
            match r {
                Ok(p) => {
                    &&& ownership_gate(old(self).posts(), caller_id, post_id) is None
                    &&& find_post_by_id(old(self).posts(), post_id) matches Some(prior) && p@
                        == apply_patch(
                        prior,
                        opt_str_view(update.title),
                        opt_str_view(update.content),
                        now,
                    )
                    &&& final(self).posts() == old(self).posts().update(
                        post_idx_by_id(old(self).posts(), post_id),
                        p@,
                    )
                },
                Err(e) => {
                    &&& final(self).posts() == old(self).posts()
                    &&& match e {
                        DomainError::PostNotFound(missing) => missing == post_id
                            && ownership_gate(old(self).posts(), caller_id, post_id) == Some(
                            DomainError::PostNotFound(post_id),
                        ),
                        DomainError::Forbidden => ownership_gate(
                            old(self).posts(),
                            caller_id,
                            post_id,
                        ) == Some(DomainError::Forbidden),
                        DomainError::Internal => true,
                        _ => false,
                    }
                },
            },
    {
        let prior = match self.repo.find_by_id(post_id) {
            Ok(Some(p)) => p,
            Ok(None) => {
                return Err(DomainError::PostNotFound(post_id));
            },
            Err(_) => {
                return Err(DomainError::Internal);
            },
        };
        if prior.author_id != caller_id {
            return Err(DomainError::Forbidden);
        }
        let new_title = match &update.title {
            Some(t) => t.clone(),
            None => prior.title,
        };
        let new_content = match &update.content {
            Some(c) => c.clone(),
            None => prior.content,
        };
        let patched = Post {
            id: prior.id,
            author_id: prior.author_id,
            title: new_title,
            content: new_content,
            created_at: prior.created_at,
            updated_at: now,
        };
        let result = patched.duplicate();
        match self.repo.update_post(patched) {
            Ok(()) => Ok(result),
            Err(_) => Err(DomainError::Internal),
        }
    }

    /// Deletes a post after the same existence-then-ownership check as an
    /// update. Deletion is unconditional and irreversible once authorized.
    pub fn delete_post(&mut self, caller_id: u64, post_id: u64) -> (r: Result<(), DomainError>)
        requires
            old(self).inv(),
        ensures
            final(self).inv(),
            match r {
                Ok(()) => {
                    &&& ownership_gate(old(self).posts(), caller_id, post_id) is None
                    &&& final(self).posts() == old(self).posts().remove(
                        post_idx_by_id(old(self).posts(), post_id),
                    )
                },
                Err(e) => {
                    &&& final(self).posts() == old(self).posts()
                    &&& match e {
                        DomainError::PostNotFound(missing) => missing == post_id
                            && ownership_gate(old(self).posts(), caller_id, post_id) == Some(
                            DomainError::PostNotFound(post_id),
                        ),
                        DomainError::Forbidden => ownership_gate(
                            old(self).posts(),
                            caller_id,
                            post_id,
                        ) == Some(DomainError::Forbidden),
                        DomainError::Internal => true,
                        _ => false,
                    }
                },
            },
    {
        let prior = match self.repo.find_by_id(post_id) {
            Ok(Some(p)) => p,
            Ok(None) => {
                return Err(DomainError::PostNotFound(post_id));
            },
            Err(_) => {
                return Err(DomainError::Internal);
            },
        };
        if prior.author_id != caller_id {
            return Err(DomainError::Forbidden);
        }
        match self.repo.delete_post(post_id) {
            Ok(()) => Ok(()),
            Err(_) => Err(DomainError::Internal),
        }
    }
}

} // verus!
