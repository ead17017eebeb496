use xbb_server::access::{check_owner_or_subscribe, check_repo_owner};
use xbb_server::error::ServiceError;
use xbb_server::link::encode_link;
use xbb_server::model::{Repo, RepoStatus, User};
use xbb_server::push::delete_repo;
use xbb_server::store::{
    add_repo, add_subscribe, add_user, check_subscribe, fetch_subscribe, get_repo_by_id, list_repos_by_owner_id, update_repo, Store,
};
use xbb_server::subscribe::{list_subscribe, new_subscribe, remove_subscribe};

fn s(x: &str) -> String {
    x.to_string()
}

fn repo(id: &str, name: &str, owner: &str) -> Repo {
    Repo {
        id: s(id),
        name: s(name),
        owner: s(owner),
        description: s("desc"),
        created_at: 1_000,
        updated_at: 1_000,
        status: RepoStatus::Normal,
    }
}

fn store_with_bob_repo() -> Store {
    let mut store = Store::new();
    add_repo(&mut store, &repo("r1", "notes", "bob")).unwrap();
    store
}

#[test]
fn test_user() -> Result<(), ServiceError> {
    let mut store = Store::new();
    let user = User::new("name".into(), "password".into());
    add_user(&mut store, &user)?;
    Ok(())
}

#[test]
fn owner_may_write_and_others_are_forbidden() {
    let store = store_with_bob_repo();
    assert_eq!(check_repo_owner(&store, &s("r1"), &s("bob")), Ok(()));
    assert!(matches!(
        check_repo_owner(&store, &s("r1"), &s("alice")),
        Err(ServiceError::Forbidden(_))
    ));
    assert!(matches!(
        check_repo_owner(&store, &s("missing"), &s("bob")),
        Err(ServiceError::NotFound(_))
    ));
}

#[test]
fn subscriber_reads_but_cannot_write() {
    let mut store = store_with_bob_repo();
    let link = encode_link(&s("bob"), &s("r1"));
    new_subscribe(&mut store, &link, &s("alice")).unwrap();
    assert_eq!(check_owner_or_subscribe(&store, &s("r1"), &s("alice")), Ok(()));
    assert!(matches!(
        check_repo_owner(&store, &s("r1"), &s("alice")),
        Err(ServiceError::Forbidden(_))
    ));
}

#[test]
fn soft_deleted_repo_is_hidden() {
    let mut store = store_with_bob_repo();
    add_repo(&mut store, &repo("r2", "diary", "bob")).unwrap();
    let link = encode_link(&s("bob"), &s("r1"));
    new_subscribe(&mut store, &link, &s("alice")).unwrap();
    delete_repo(&mut store, &s("r1"), &s("bob")).unwrap();

    assert!(get_repo_by_id(&store, &s("r1")).is_none());
    let listed = list_repos_by_owner_id(&store, &s("bob"));
    assert_eq!(listed.len(), 1);
    assert_eq!(listed[0].id, "r2");
    assert!(matches!(
        check_owner_or_subscribe(&store, &s("r1"), &s("bob")),
        Err(ServiceError::NotFound(_))
    ));
    assert!(matches!(
        check_owner_or_subscribe(&store, &s("r1"), &s("alice")),
        Err(ServiceError::NotFound(_))
    ));
    assert!(list_subscribe(&store, &s("alice")).is_empty());
    // the row persists, marked deleted
    assert_eq!(store.repos.rows.len(), 2);
    assert_eq!(store.repos.rows[0].status, RepoStatus::Deleted);
}

#[test]
fn delete_repo_of_someone_else_is_not_found() {
    let mut store = store_with_bob_repo();
    assert!(matches!(
        delete_repo(&mut store, &s("r1"), &s("alice")),
        Err(ServiceError::NotFound(_))
    ));
    assert!(matches!(
        delete_repo(&mut store, &s("nope"), &s("bob")),
        Err(ServiceError::NotFound(_))
    ));
    assert!(get_repo_by_id(&store, &s("r1")).is_some());
}

#[test]
fn read_access_follows_subscription() {
    let mut store = store_with_bob_repo();
    let denied = check_owner_or_subscribe(&store, &s("r1"), &s("alice"));
    assert!(matches!(denied, Err(ServiceError::Forbidden(_))));

    let link = encode_link(&s("bob"), &s("r1"));
    let got = new_subscribe(&mut store, &link, &s("alice")).unwrap();
    assert_eq!(got.id, "r1");
    assert_eq!(check_owner_or_subscribe(&store, &s("r1"), &s("alice")), Ok(()));

    remove_subscribe(&mut store, &s("r1"), &s("alice")).unwrap();
    let denied = check_owner_or_subscribe(&store, &s("r1"), &s("alice"));
    assert!(matches!(denied, Err(ServiceError::Forbidden(_))));
}

#[test]
fn self_subscription_is_a_bad_request() {
    let mut store = store_with_bob_repo();
    let link = encode_link(&s("bob"), &s("r1"));
    assert!(matches!(
        new_subscribe(&mut store, &link, &s("bob")),
        Err(ServiceError::BadRequest(_))
    ));
    assert!(store.subscriptions.rows.is_empty());
}

#[test]
fn subscribing_twice_keeps_one_grant() {
    let mut store = store_with_bob_repo();
    let link = encode_link(&s("bob"), &s("r1"));
    new_subscribe(&mut store, &link, &s("alice")).unwrap();
    new_subscribe(&mut store, &link, &s("alice")).unwrap();
    assert_eq!(store.subscriptions.rows.len(), 1);
    let repos = list_subscribe(&store, &s("alice"));
    assert_eq!(repos.len(), 1);
    assert_eq!(repos[0].name, "notes");
}

#[test]
fn subscribe_link_with_wrong_owner_is_not_found() {
    let mut store = store_with_bob_repo();
    let link = encode_link(&s("carol"), &s("r1"));
    assert!(matches!(
        new_subscribe(&mut store, &link, &s("alice")),
        Err(ServiceError::NotFound(_))
    ));
    let link = encode_link(&s("bob"), &s("r9"));
    assert!(matches!(
        new_subscribe(&mut store, &link, &s("alice")),
        Err(ServiceError::NotFound(_))
    ));
    assert!(matches!(
        new_subscribe(&mut store, &s("malformed"), &s("alice")),
        Err(ServiceError::BadRequest(_))
    ));
}

#[test]
fn unsubscribe_without_subscription_is_not_found() {
    let mut store = store_with_bob_repo();
    assert!(matches!(
        remove_subscribe(&mut store, &s("r1"), &s("alice")),
        Err(ServiceError::NotFound(_))
    ));
}

#[test]
fn repo_names_are_unique() {
    let mut store = store_with_bob_repo();
    assert!(matches!(
        add_repo(&mut store, &repo("r2", "notes", "carol")),
        Err(ServiceError::Conflict(_))
    ));
    assert!(matches!(
        add_repo(&mut store, &repo("r1", "other", "carol")),
        Err(ServiceError::Conflict(_))
    ));
    add_repo(&mut store, &repo("r2", "other", "carol")).unwrap();
    assert!(matches!(
        update_repo(&mut store, &repo("r2", "notes", "carol")),
        Err(ServiceError::Conflict(_))
    ));
    assert!(matches!(
        update_repo(&mut store, &repo("r3", "x", "carol")),
        Err(ServiceError::NotFound(_))
    ));
}

#[test]
fn update_repo_keeps_owner_and_creation_time() {
    let mut store = store_with_bob_repo();
    let mut changed = repo("r1", "renamed", "mallory");
    changed.created_at = 5;
    changed.updated_at = 2_000;
    update_repo(&mut store, &changed).unwrap();
    let stored = get_repo_by_id(&store, &s("r1")).unwrap();
    assert_eq!(stored.name, "renamed");
    assert_eq!(stored.owner, "bob");
    assert_eq!(stored.created_at, 1_000);
    assert_eq!(stored.updated_at, 2_000);
}

#[test]
fn add_subscribe_stores_one_grant() {
    let mut store = store_with_bob_repo();
    add_subscribe(&mut store, &s("alice"), &s("r1")).unwrap();
    assert!(check_subscribe(&store, &s("alice"), &s("r1")));
    assert_eq!(fetch_subscribe(&store, &s("alice")), vec![s("r1")]);
    assert_eq!(store.subscriptions.rows[0].id.len(), 36);
    assert!(matches!(
        add_subscribe(&mut store, &s("alice"), &s("r1")),
        Err(ServiceError::Conflict(_))
    ));
    assert_eq!(store.subscriptions.rows.len(), 1);
}
