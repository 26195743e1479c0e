use blog_core::dto::UpdatePostRequest;
use blog_core::error::DomainError;
use blog_core::mem_store::MemPostStore;
use blog_core::post_service::{PostService, default_page_size, effective_limit};

fn service() -> PostService<MemPostStore> {
    PostService::new(MemPostStore::new())
}

const ALICE: u64 = 1;
const BOB: u64 = 2;

#[test]
fn create_then_get_round_trip() {
    let mut posts = service();
    let created = posts
        .create_post(ALICE, "t".to_string(), "c".to_string(), 100)
        .expect("created");
    let fetched = posts.get_post(created.id).expect("found");
    assert_eq!(fetched.title, "t");
    assert_eq!(fetched.content, "c");
    assert_eq!(fetched.author_id, ALICE);
    assert_eq!(fetched.created_at, 100);
    assert_eq!(fetched.created_at, fetched.updated_at);
}

#[test]
fn get_post_reports_missing_identifier() {
    let posts = service();
    assert_eq!(posts.get_post(77).err(), Some(DomainError::PostNotFound(77)));
}

#[test]
fn update_patches_only_set_fields_and_refreshes_updated_at() {
    let mut posts = service();
    let created = posts
        .create_post(ALICE, "old title".to_string(), "old content".to_string(), 100)
        .expect("created");
    let patch = UpdatePostRequest { title: Some("new title".to_string()), content: None };
    let updated = posts.update_post(ALICE, created.id, &patch, 200).expect("updated");
    assert_eq!(updated.title, "new title");
    assert_eq!(updated.content, "old content");
    assert_eq!(updated.created_at, 100);
    assert_eq!(updated.updated_at, 200);
    assert!(updated.updated_at > updated.created_at);
    let fetched = posts.get_post(created.id).expect("found");
    assert_eq!(fetched.title, "new title");
    assert_eq!(fetched.content, "old content");
    assert_eq!(fetched.updated_at, 200);
}

#[test]
fn update_with_empty_patch_keeps_both_fields() {
    let mut posts = service();
    let created = posts
        .create_post(ALICE, "title".to_string(), "content".to_string(), 100)
        .expect("created");
    let patch = UpdatePostRequest { title: None, content: None };
    let updated = posts.update_post(ALICE, created.id, &patch, 150).expect("updated");
    assert_eq!(updated.title, "title");
    assert_eq!(updated.content, "content");
    assert_eq!(updated.updated_at, 150);
}

#[test]
fn update_by_non_owner_is_forbidden() {
    let mut posts = service();
    let created = posts
        .create_post(ALICE, "t".to_string(), "c".to_string(), 100)
        .expect("created");
    let patch = UpdatePostRequest { title: Some("hijacked".to_string()), content: None };
    let r = posts.update_post(BOB, created.id, &patch, 200);
    assert_eq!(r.err(), Some(DomainError::Forbidden));
    assert_eq!(posts.get_post(created.id).expect("unchanged").title, "t");
}

#[test]
fn update_of_missing_post_is_not_found_even_for_a_stranger() {
    let mut posts = service();
    posts.create_post(ALICE, "t".to_string(), "c".to_string(), 100).expect("created");
    let patch = UpdatePostRequest { title: Some("x".to_string()), content: None };
    let r = posts.update_post(BOB, 424242, &patch, 200);
    assert_eq!(r.err(), Some(DomainError::PostNotFound(424242)));
}

#[test]
fn delete_by_owner_then_get_not_found() {
    let mut posts = service();
    let created = posts
        .create_post(ALICE, "t".to_string(), "c".to_string(), 100)
        .expect("created");
    posts.delete_post(ALICE, created.id).expect("deleted");
    assert_eq!(posts.get_post(created.id).err(), Some(DomainError::PostNotFound(created.id)));
}

#[test]
fn delete_by_non_owner_is_forbidden() {
    let mut posts = service();
    let created = posts
        .create_post(ALICE, "t".to_string(), "c".to_string(), 100)
        .expect("created");
    assert_eq!(posts.delete_post(BOB, created.id).err(), Some(DomainError::Forbidden));
    assert!(posts.get_post(created.id).is_ok());
}

#[test]
fn delete_of_missing_post_is_not_found() {
    let mut posts = service();
    assert_eq!(posts.delete_post(ALICE, 5).err(), Some(DomainError::PostNotFound(5)));
}

#[test]
fn listing_orders_by_recency_with_identifier_tiebreak() {
    let mut posts = service();
    let early = posts.create_post(ALICE, "early".to_string(), "".to_string(), 5).expect("created");
    let tie_a = posts.create_post(ALICE, "tie a".to_string(), "".to_string(), 10).expect("created");
    let middle = posts.create_post(BOB, "middle".to_string(), "".to_string(), 7).expect("created");
    let tie_b = posts.create_post(BOB, "tie b".to_string(), "".to_string(), 10).expect("created");
    let page = posts.get_posts(None, None).expect("listed");
    let ids: Vec<u64> = page.iter().map(|p| p.id).collect();
    assert_eq!(ids, vec![tie_a.id, tie_b.id, middle.id, early.id]);
}

#[test]
fn listing_limit_zero_behaves_as_default_limit() {
    let mut posts = service();
    for i in 0..12u64 {
        posts
            .create_post(ALICE, format!("post {}", i), "".to_string(), 1000 + i)
            .expect("created");
    }
    let defaulted = posts.get_posts(Some(0), Some(0)).expect("listed");
    let explicit = posts.get_posts(Some(10), Some(0)).expect("listed");
    assert_eq!(defaulted.len(), 10);
    let a: Vec<u64> = defaulted.iter().map(|p| p.id).collect();
    let b: Vec<u64> = explicit.iter().map(|p| p.id).collect();
    assert_eq!(a, b);
}

#[test]
fn listing_limit_above_cap_behaves_as_cap() {
    let mut posts = service();
    for i in 0..12u64 {
        posts
            .create_post(ALICE, format!("post {}", i), "".to_string(), 1000 + i)
            .expect("created");
    }
    let huge: Vec<u64> = posts.get_posts(Some(1000), None).expect("listed").iter().map(|p| p.id).collect();
    let capped: Vec<u64> = posts.get_posts(Some(100), None).expect("listed").iter().map(|p| p.id).collect();
    assert_eq!(huge, capped);
    assert_eq!(huge.len(), 12);
}

#[test]
fn listing_applies_offset_and_runs_out_cleanly() {
    let mut posts = service();
    let a = posts.create_post(ALICE, "a".to_string(), "".to_string(), 1).expect("created");
    let b = posts.create_post(ALICE, "b".to_string(), "".to_string(), 2).expect("created");
    let c = posts.create_post(ALICE, "c".to_string(), "".to_string(), 3).expect("created");
    let page: Vec<u64> = posts.get_posts(None, Some(1)).expect("listed").iter().map(|p| p.id).collect();
    assert_eq!(page, vec![b.id, a.id]);
    assert!(posts.get_posts(None, Some(3)).expect("listed").is_empty());
    assert!(posts.get_posts(None, Some(50)).expect("listed").is_empty());
    let _ = c;
}

#[test]
fn effective_limit_clamps_as_specified() {
    assert_eq!(effective_limit(None), 10);
    assert_eq!(effective_limit(Some(0)), 10);
    assert_eq!(effective_limit(Some(37)), 37);
    assert_eq!(effective_limit(Some(100)), 100);
    assert_eq!(effective_limit(Some(101)), 100);
    assert_eq!(effective_limit(Some(usize::MAX)), 100);
    assert_eq!(default_page_size(), 10);
}
