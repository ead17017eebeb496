use xbb_server::error::ServiceError;
use xbb_server::model::{
    OpenApiPushCommentRequest, OpenApiPushPostRequest, OpenApiPushRepoRequest, Repo, RepoStatus,
};
use xbb_server::push::{
    delete_comment, delete_post, delete_repo, get_comment, get_post, get_repo, list_comment, list_post,
    push_comment, push_comment_at, push_post, push_repo, repo_summary, PushOutcome,
};
use xbb_server::store::{add_repo, get_post_by_id, get_repo_by_id, Store};
use xbb_server::link::encode_link;
use xbb_server::subscribe::new_subscribe;

fn s(x: &str) -> String {
    x.to_string()
}

fn bob_store() -> Store {
    let mut store = Store::new();
    let repo = Repo {
        id: s("r1"),
        name: s("notes"),
        owner: s("bob"),
        description: s(""),
        created_at: 1,
        updated_at: 1,
        status: RepoStatus::Normal,
    };
    add_repo(&mut store, &repo).unwrap();
    store
}

fn post_req(id: &str, author: &str, repo_id: &str, created_at: i64) -> OpenApiPushPostRequest {
    OpenApiPushPostRequest {
        id: s(id),
        category: s("cat"),
        title: s("title"),
        content: s("content"),
        created_at,
        updated_at: created_at,
        author: s(author),
        repo_id: s(repo_id),
    }
}

fn comment_req(id: Option<&str>, content: &str) -> OpenApiPushCommentRequest {
    OpenApiPushCommentRequest { id: id.map(s), content: s(content), parent_id: None }
}

#[test]
fn push_post_twice_creates_then_updates() {
    let mut store = bob_store();
    let first = push_post(&mut store, &s("r1"), post_req("post-1", "bob", "r1", 100), &s("bob"));
    let second = push_post(&mut store, &s("r1"), post_req("post-1", "bob", "r1", 100), &s("bob"));
    assert_eq!(first, Ok(PushOutcome::Created));
    assert_eq!(second, Ok(PushOutcome::Updated));
    assert_eq!(store.posts.rows.len(), 1);
    assert_eq!(get_post_by_id(&store, &s("post-1")).unwrap().created_at, 100);
}

#[test]
fn push_post_update_keeps_creation_time_and_author() {
    let mut store = bob_store();
    push_post(&mut store, &s("r1"), post_req("post-1", "bob", "r1", 100), &s("bob")).unwrap();
    let mut again = post_req("post-1", "bob", "r1", 999);
    again.title = s("new title");
    again.updated_at = 1_000;
    assert_eq!(push_post(&mut store, &s("r1"), again, &s("bob")), Ok(PushOutcome::Updated));
    let stored = get_post_by_id(&store, &s("post-1")).unwrap();
    assert_eq!(stored.title, "new title");
    assert_eq!(stored.created_at, 100);
    assert_eq!(stored.updated_at, 1_000);
    assert_eq!(stored.author, "bob");
}

#[test]
fn push_post_with_forged_author_is_forbidden() {
    let mut store = bob_store();
    let r = push_post(&mut store, &s("r1"), post_req("post-1", "alice", "r1", 1), &s("bob"));
    assert!(matches!(r, Err(ServiceError::Forbidden(_))));
    assert!(store.posts.rows.is_empty());
    push_post(&mut store, &s("r1"), post_req("post-1", "bob", "r1", 1), &s("bob")).unwrap();
    let r = push_post(&mut store, &s("r1"), post_req("post-1", "alice", "r1", 1), &s("bob"));
    assert!(matches!(r, Err(ServiceError::Forbidden(_))));
}

#[test]
fn push_post_into_another_repo_path_is_not_found() {
    let mut store = bob_store();
    let r = push_post(&mut store, &s("r2"), post_req("post-1", "bob", "r1", 1), &s("bob"));
    assert!(matches!(r, Err(ServiceError::NotFound(_))));
}

#[test]
fn push_post_into_foreign_repo_is_forbidden() {
    let mut store = bob_store();
    let r = push_post(&mut store, &s("r1"), post_req("post-1", "alice", "r1", 1), &s("alice"));
    assert!(matches!(r, Err(ServiceError::Forbidden(_))));
    let r = push_post(&mut store, &s("r9"), post_req("post-1", "alice", "r9", 1), &s("alice"));
    assert!(matches!(r, Err(ServiceError::Forbidden(_))));
}

#[test]
fn push_over_foreign_post_into_deleted_repo_is_forbidden() {
    let mut store = bob_store();
    push_post(&mut store, &s("r1"), post_req("post-1", "bob", "r1", 1), &s("bob")).unwrap();
    let repo = Repo {
        id: s("r2"),
        name: s("alice-notes"),
        owner: s("alice"),
        description: s(""),
        created_at: 1,
        updated_at: 1,
        status: RepoStatus::Normal,
    };
    add_repo(&mut store, &repo).unwrap();
    delete_repo(&mut store, &s("r2"), &s("alice")).unwrap();
    let r = push_post(&mut store, &s("r2"), post_req("post-1", "alice", "r2", 5), &s("alice"));
    assert!(matches!(r, Err(ServiceError::Forbidden(_))));
    let stored = get_post_by_id(&store, &s("post-1")).unwrap();
    assert_eq!(stored.author, "bob");
    assert_eq!(stored.repo_id, "r1");
}

#[test]
fn push_repo_creates_updates_and_guards_owner() {
    let mut store = Store::new();
    let req = |owner: &str, name: &str| OpenApiPushRepoRequest {
        id: s("r1"),
        name: s(name),
        owner: s(owner),
        description: s("d"),
        created_at: 10,
        updated_at: 20,
    };
    assert_eq!(push_repo(&mut store, req("bob", "notes"), &s("bob")), Ok(PushOutcome::Created));
    assert_eq!(push_repo(&mut store, req("bob", "notes2"), &s("bob")), Ok(PushOutcome::Updated));
    assert!(matches!(
        push_repo(&mut store, req("bob", "x"), &s("alice")),
        Err(ServiceError::Forbidden(_))
    ));
    assert!(matches!(
        push_repo(&mut store, req("alice", "x"), &s("alice")),
        Err(ServiceError::Forbidden(_))
    ));
    let stored = get_repo_by_id(&store, &s("r1")).unwrap();
    assert_eq!(stored.name, "notes2");
    assert_eq!(stored.owner, "bob");
    assert_eq!(PushOutcome::Created.status_code(), 201);
    assert_eq!(PushOutcome::Updated.status_code(), 200);
}

#[test]
fn only_the_comment_author_deletes_it() {
    let mut store = bob_store();
    push_post(&mut store, &s("r1"), post_req("post-1", "bob", "r1", 1), &s("bob")).unwrap();
    let link = encode_link(&s("bob"), &s("r1"));
    new_subscribe(&mut store, &link, &s("alice")).unwrap();
    let r = push_comment_at(
        &mut store,
        &s("r1"),
        &s("post-1"),
        comment_req(None, "hi"),
        &s("alice"),
        s("c1"),
        50,
    );
    assert_eq!(r, Ok(PushOutcome::Created));

    let r = delete_comment(&mut store, &s("r1"), &s("post-1"), &s("c1"), &s("bob"));
    assert!(matches!(r, Err(ServiceError::Forbidden(_))));
    assert_eq!(store.comments.rows.len(), 1);

    assert_eq!(delete_comment(&mut store, &s("r1"), &s("post-1"), &s("c1"), &s("alice")), Ok(()));
    assert!(store.comments.rows.is_empty());
    let r = delete_comment(&mut store, &s("r1"), &s("post-1"), &s("c1"), &s("alice"));
    assert!(matches!(r, Err(ServiceError::NotFound(_))));
}

#[test]
fn comment_edit_needs_authorship() {
    let mut store = bob_store();
    push_post(&mut store, &s("r1"), post_req("post-1", "bob", "r1", 1), &s("bob")).unwrap();
    let link = encode_link(&s("bob"), &s("r1"));
    new_subscribe(&mut store, &link, &s("alice")).unwrap();
    push_comment_at(&mut store, &s("r1"), &s("post-1"), comment_req(None, "hi"), &s("alice"), s("c1"), 50)
        .unwrap();
    let r = push_comment_at(
        &mut store,
        &s("r1"),
        &s("post-1"),
        comment_req(Some("c1"), "edited by owner"),
        &s("bob"),
        s("unused"),
        60,
    );
    assert!(matches!(r, Err(ServiceError::Forbidden(_))));
    let r = push_comment_at(
        &mut store,
        &s("r1"),
        &s("post-1"),
        comment_req(Some("c1"), "edited"),
        &s("alice"),
        s("unused"),
        70,
    );
    assert_eq!(r, Ok(PushOutcome::Updated));
    let c = get_comment(&store, &s("r1"), &s("post-1"), &s("c1"), &s("alice")).unwrap();
    assert_eq!(c.content, "edited");
    assert_eq!(c.author, "alice");
    assert_eq!(c.created_at, 50);
    assert_eq!(c.updated_at, 70);
    let r = push_comment_at(
        &mut store,
        &s("r1"),
        &s("post-1"),
        comment_req(Some("c9"), "x"),
        &s("alice"),
        s("unused"),
        70,
    );
    assert!(matches!(r, Err(ServiceError::NotFound(_))));
}

#[test]
fn comment_by_stranger_is_refused() {
    let mut store = bob_store();
    push_post(&mut store, &s("r1"), post_req("post-1", "bob", "r1", 1), &s("bob")).unwrap();
    let r = push_comment(&mut store, &s("r1"), &s("post-1"), comment_req(None, "hi"), &s("eve"));
    assert!(matches!(r, Err(ServiceError::Forbidden(_))));
    let r = push_comment(&mut store, &s("r1"), &s("post-9"), comment_req(None, "hi"), &s("bob"));
    assert!(matches!(r, Err(ServiceError::NotFound(_))));
}

#[test]
fn push_comment_uses_fresh_id_and_time() {
    let mut store = bob_store();
    push_post(&mut store, &s("r1"), post_req("post-1", "bob", "r1", 1), &s("bob")).unwrap();
    let r = push_comment(&mut store, &s("r1"), &s("post-1"), comment_req(None, "a"), &s("bob"));
    assert_eq!(r, Ok(PushOutcome::Created));
    let r = push_comment(&mut store, &s("r1"), &s("post-1"), comment_req(None, "b"), &s("bob"));
    assert_eq!(r, Ok(PushOutcome::Created));
    let rows = &store.comments.rows;
    assert_eq!(rows.len(), 2);
    assert_eq!(rows[0].id.len(), 36);
    assert_ne!(rows[0].id, rows[1].id);
    assert!(rows[0].created_at > 1_600_000_000_000);
    assert_eq!(rows[0].created_at, rows[0].updated_at);
    assert_eq!(rows[0].author, "bob");
}

#[test]
fn reads_need_read_access() {
    let mut store = bob_store();
    push_post(&mut store, &s("r1"), post_req("post-1", "bob", "r1", 1), &s("bob")).unwrap();
    assert!(matches!(
        list_post(&store, &s("r1"), &s("eve")),
        Err(ServiceError::Forbidden(_))
    ));
    assert_eq!(list_post(&store, &s("r1"), &s("bob")).unwrap().len(), 1);
    assert_eq!(get_post(&store, &s("r1"), &s("post-1"), &s("bob")).unwrap().title, "title");
    assert!(matches!(
        get_post(&store, &s("r1"), &s("post-2"), &s("bob")),
        Err(ServiceError::NotFound(_))
    ));
    assert!(list_comment(&store, &s("r1"), &s("post-1"), &s("bob")).unwrap().is_empty());
    let (repo, posts) = repo_summary(&store, &s("r1"), &s("bob")).unwrap();
    assert_eq!(repo.id, "r1");
    assert_eq!(posts.len(), 1);
    assert_eq!(posts[0].id, "post-1");
    assert_eq!(get_repo(&store, &s("r1"), &s("bob")).unwrap().name, "notes");
    assert!(matches!(get_repo(&store, &s("r1"), &s("eve")), Err(ServiceError::NotFound(_))));
}

#[test]
fn delete_post_needs_ownership() {
    let mut store = bob_store();
    push_post(&mut store, &s("r1"), post_req("post-1", "bob", "r1", 1), &s("bob")).unwrap();
    assert!(matches!(
        delete_post(&mut store, &s("r1"), &s("post-1"), &s("eve")),
        Err(ServiceError::Forbidden(_))
    ));
    assert_eq!(delete_post(&mut store, &s("r1"), &s("post-1"), &s("bob")), Ok(()));
    assert!(matches!(
        delete_post(&mut store, &s("r1"), &s("post-1"), &s("bob")),
        Err(ServiceError::NotFound(_))
    ));
}
