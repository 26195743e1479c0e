//! The post record and its mathematical view.

use vstd::prelude::*;

verus! {

/// A published post. The identifier is assigned by the store and is unique;
/// the author identifier references an existing user and never changes after
/// creation; timestamps are seconds, equal at creation.
pub struct Post {
    pub id: u64,
    pub author_id: u64,
    pub title: String,
    pub content: String,
    pub created_at: u64,
    pub updated_at: u64,
}

/// The view of a post: every field as a plain mathematical value.
pub ghost struct PostView {
    pub id: u64,
    pub author_id: u64,
    pub title: Seq<char>,
    pub content: Seq<char>,
    pub created_at: u64,
    pub updated_at: u64,
}

impl View for Post {
    type V = PostView;

    open spec fn view(&self) -> PostView {
        PostView {
            id: self.id,
            author_id: self.author_id,
            title: self.title@,
            content: self.content@,
            created_at: self.created_at,
            updated_at: self.updated_at,
        }
    }
}

impl Post {
    /// A freshly created post: both timestamps are the creation instant.
    pub fn new(id: u64, author_id: u64, title: String, content: String, now: u64) -> (r: Self)
        ensures
            r@ == (PostView {
                id,
                author_id,
                title: title@,
                content: content@,
                created_at: now,
                updated_at: now,
            }),
    {
        Post { id, author_id, title, content, created_at: now, updated_at: now }
    }

    /// An owned copy of this record.
    pub fn duplicate(&self) -> (r: Self)
        ensures
            r@ == self@,
    {
        Post {
            id: self.id,
            author_id: self.author_id,
            title: self.title.clone(),
            content: self.content.clone(),
            created_at: self.created_at,
            updated_at: self.updated_at,
        }
    }
}

} // verus!
