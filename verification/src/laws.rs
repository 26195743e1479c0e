//! The laws the service layer obeys, proved over the same spec functions its
//! contracts are stated with.

use vstd::prelude::*;

use crate::auth_service::{login_denial, login_ok};
use crate::error::DomainError;
use crate::post::PostView;
use crate::post_service::{
    DEFAULT_PAGE_SIZE, MAX_PAGE_SIZE, apply_patch, ownership_gate, spec_effective_limit,
    spec_effective_offset,
};
use crate::security::{Claims, TokenError, claims_outcome, password_matches};
use crate::store::{
    find_post_by_id, find_user_by_email, find_user_by_id, insert_by_recency, list_page,
    post_id_taken, unique_post_ids, user_id_taken,
};
use crate::user::UserView;

verus! {

/// Law: registration followed by verification of the issued token leads back
/// to the created user. A successful registration appends a user whose
/// identifier was unused; any token issued for that user and verified before
/// its expiry is accepted with the user's identifier as subject (that is
/// `claims_outcome` on the claims the token carries); and that subject looked
/// up in the post-registration store resolves to exactly the created user.
pub proof fn lemma_register_then_verify(
    users: Seq<UserView>,
    u: UserView,
    iat: u64,
    exp: u64,
    now: u64,
)
    requires
        find_user_by_id(users, u.id) is None,
        now <= exp,
    ensures
        claims_outcome(Some(Claims { sub: u.id, iat, exp }), now) == Ok::<Claims, TokenError>(
            Claims { sub: u.id, iat, exp },
        ),
        find_user_by_id(users.push(u), u.id) == Some(u),
{
    let s = users.push(u);
    assert(s[users.len() as int] == u);
    assert(user_id_taken(s, u.id));
    let j = choose|j: int| 0 <= j < s.len() && s[j].id == u.id;
    if j < users.len() {
        assert(users[j] == s[j]);
        assert(user_id_taken(users, u.id));
    }
}

/// Law: a login attempt with an email no user carries, and one with an email
/// that resolves to a user but a password that does not verify against the
/// stored hash, are both denied — and denied with the identical
/// `Unauthorized` value, so the two causes are observably indistinguishable
/// to the caller.
pub proof fn lemma_login_indistinguishable(
    users: Seq<UserView>,
    email1: Seq<char>,
    pw1: Seq<char>,
    email2: Seq<char>,
    pw2: Seq<char>,
)
    ensures
        find_user_by_email(users, email1) is None ==> !login_ok(users, email1, pw1),
        (find_user_by_email(users, email2) matches Some(u) && !password_matches(
            pw2,
            u.password_hash,
        )) ==> !login_ok(users, email2, pw2),
        (find_user_by_email(users, email1) is None && (find_user_by_email(users, email2)
            matches Some(u) && !password_matches(pw2, u.password_hash))) ==> login_denial(
            users,
            email1,
            pw1,
        ) == login_denial(users, email2, pw2) && login_denial(users, email1, pw1) == Some(
            DomainError::Unauthorized,
        ),
{
}

/// Law: a listing with no limit or limit zero behaves exactly as one with
/// the default limit, and a listing with any limit above the cap behaves
/// exactly as one with the cap, for every store content and offset.
pub proof fn lemma_list_posts_clamping(posts: Seq<PostView>, offset: Option<usize>)
    ensures
        spec_effective_limit(None) == DEFAULT_PAGE_SIZE,
        spec_effective_limit(Some(0)) == spec_effective_limit(Some(DEFAULT_PAGE_SIZE)),
        list_page(
            posts,
            spec_effective_limit(Some(0)) as int,
            spec_effective_offset(offset) as int,
        ) == list_page(
            posts,
            spec_effective_limit(Some(DEFAULT_PAGE_SIZE)) as int,
            spec_effective_offset(offset) as int,
        ),
        forall|l: usize|
            l > MAX_PAGE_SIZE ==> #[trigger] spec_effective_limit(Some(l))
                == spec_effective_limit(Some(MAX_PAGE_SIZE)),
        forall|l: usize|
            l > MAX_PAGE_SIZE ==> #[trigger] list_page(
                posts,
                spec_effective_limit(Some(l)) as int,
                spec_effective_offset(offset) as int,
            ) == list_page(
                posts,
                spec_effective_limit(Some(MAX_PAGE_SIZE)) as int,
                spec_effective_offset(offset) as int,
            ),
{
}

/// Law: mutations check existence before ownership. `Forbidden` is decided
/// only for a post that exists, a missing post is `PostNotFound` whoever the
/// caller is, and only the author may pass.
pub proof fn lemma_existence_before_ownership(posts: Seq<PostView>, caller_id: u64, post_id: u64)
    ensures
        ownership_gate(posts, caller_id, post_id) == Some(DomainError::Forbidden)
            ==> find_post_by_id(posts, post_id) is Some,
        find_post_by_id(posts, post_id) is None ==> ownership_gate(posts, caller_id, post_id)
            == Some(DomainError::PostNotFound(post_id)),
        (find_post_by_id(posts, post_id) matches Some(p) && p.author_id != caller_id)
            ==> ownership_gate(posts, caller_id, post_id) == Some(DomainError::Forbidden),
        (find_post_by_id(posts, post_id) matches Some(p) && p.author_id == caller_id)
            ==> ownership_gate(posts, caller_id, post_id) is None,
{
}

/// Law: a well-signed token whose expiry lies before `now` is rejected as
/// expired, the signature's validity notwithstanding, and no accepted claims
/// are ever expired.
pub proof fn lemma_expired_token_rejected(c: Claims, now: u64)
    ensures
        now > c.exp ==> claims_outcome(Some(c), now) == Err::<Claims, TokenError>(
            TokenError::TokenExpired,
        ),
        claims_outcome(Some(c), now) matches Ok(accepted) ==> accepted == c && now <= c.exp,
{
}

/// Every record of a recency insertion is the inserted record or one of the
/// originals, the inserted record is among them, and the length grows by
/// one.
pub proof fn lemma_insert_by_recency_elems(posts: Seq<PostView>, p: PostView)
    ensures
        insert_by_recency(posts, p).len() == posts.len() + 1,
        forall|k: int|
            0 <= k < insert_by_recency(posts, p).len() ==> (#[trigger] insert_by_recency(posts, p)[k]
                == p || posts.contains(insert_by_recency(posts, p)[k])),
        insert_by_recency(posts, p).contains(p),
    decreases posts.len(),
{
    let s = insert_by_recency(posts, p);
    if posts.len() == 0 {
        assert(s[0] == p);
    } else if posts[0].created_at >= p.created_at {
        let rest = posts.drop_first();
        lemma_insert_by_recency_elems(rest, p);
        let inner = insert_by_recency(rest, p);
        assert forall|k: int| 0 <= k < s.len() implies (#[trigger] s[k] == p || posts.contains(
            s[k],
        )) by {
            if k == 0 {
                assert(posts[0] == s[0]);
                assert(posts.contains(posts[0]));
            } else {
                assert(s[k] == inner[k - 1]);
                if inner[k - 1] == p {
                } else {
                    let m = choose|m: int| 0 <= m < rest.len() && rest[m] == inner[k - 1];
                    assert(posts[m + 1] == rest[m]);
                    assert(posts.contains(posts[m + 1]));
                }
            }
        }
        let w = choose|w: int| 0 <= w < inner.len() && inner[w] == p;
        assert(s[w + 1] == p);
        assert(s.contains(p));
    } else {
        assert(s[0] == p);
        assert forall|k: int| 0 <= k < s.len() implies (#[trigger] s[k] == p || posts.contains(
            s[k],
        )) by {
            if k > 0 {
                assert(s[k] == posts[k - 1]);
                assert(posts.contains(posts[k - 1]));
            }
        }
    }
}

/// Law, first half of the creation round trip: a freshly created post —
/// identifier unused before — is returned intact by a lookup of its
/// identifier in the post-creation store, creation and update instants
/// equal as created.
pub proof fn lemma_create_then_get(posts: Seq<PostView>, p: PostView)
    requires
        find_post_by_id(posts, p.id) is None,
        p.created_at == p.updated_at,
    ensures
        find_post_by_id(insert_by_recency(posts, p), p.id) == Some(p),
        find_post_by_id(insert_by_recency(posts, p), p.id) matches Some(q) && q.created_at
            == q.updated_at,
{
    lemma_insert_by_recency_elems(posts, p);
    let s = insert_by_recency(posts, p);
    let w = choose|w: int| 0 <= w < s.len() && s[w] == p;
    assert(post_id_taken(s, p.id));
    let j = choose|j: int| 0 <= j < s.len() && s[j].id == p.id;
    if s[j] != p {
        assert(posts.contains(s[j]));
        let m = choose|m: int| 0 <= m < posts.len() && posts[m] == s[j];
        assert(post_id_taken(posts, p.id));
    }
}

/// Law, second half of the creation round trip: after one update the
/// replaced record is the one a lookup of the identifier returns, so the
/// patched fields read back as patched and the unset ones as they were.
pub proof fn lemma_update_then_get(posts: Seq<PostView>, idx: int, q: PostView)
    requires
        unique_post_ids(posts),
        0 <= idx < posts.len(),
        posts[idx].id == q.id,
    ensures
        find_post_by_id(posts.update(idx, q), q.id) == Some(q),
{
    let s = posts.update(idx, q);
    assert(s[idx] == q);
    assert(post_id_taken(s, q.id));
    let j = choose|j: int| 0 <= j < s.len() && s[j].id == q.id;
    if j != idx {
        assert(s[j] == posts[j]);
        assert(posts[j].id != posts[idx].id);
    }
}

/// Law: a patch touches exactly the fields it sets. The update instant is
/// refreshed, identifier, author and creation instant never change, an unset
/// field keeps its stored value, a set field takes the given one, and an
/// update at an instant after creation leaves the update instant strictly
/// later than the creation instant.
pub proof fn lemma_patch_preserves_unset(
    p: PostView,
    title: Option<Seq<char>>,
    content: Option<Seq<char>>,
    now: u64,
)
    ensures
        apply_patch(p, title, content, now).updated_at == now,
        apply_patch(p, title, content, now).created_at == p.created_at,
        apply_patch(p, title, content, now).id == p.id,
        apply_patch(p, title, content, now).author_id == p.author_id,
        title is None ==> apply_patch(p, title, content, now).title == p.title,
        content is None ==> apply_patch(p, title, content, now).content == p.content,
        title matches Some(t) ==> apply_patch(p, title, content, now).title == t,
        content matches Some(c) ==> apply_patch(p, title, content, now).content == c,
        now > p.created_at ==> apply_patch(p, title, content, now).updated_at > apply_patch(
            p,
            title,
            content,
            now,
        ).created_at,
{
}

} // verus!
