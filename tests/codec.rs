use xbb_server::account::{
    get_user, update_user, update_user_at, validate_login, validate_login_at, validate_user_name,
    UserValidator,
};
use xbb_server::error::ServiceError;
use xbb_server::link::{encode_link, parse_link};
use xbb_server::model::{OpenApiNewUserRequest, OpenApiUpdateUserRequest, RepoStatus, User};
use xbb_server::store::{add_user, get_user_by_id, Store};

fn s(x: &str) -> String {
    x.to_string()
}

#[test]
fn link_round_trip() {
    let link = encode_link(&s("owner-1"), &s("repo-2"));
    assert_eq!(link, "xbb://owner-1/repo-2");
    assert_eq!(parse_link(&link), Ok((s("owner-1"), s("repo-2"))));
}

#[test]
fn link_with_any_scheme_decodes() {
    assert_eq!(parse_link(&s("share://a/b")), Ok((s("a"), s("b"))));
    assert_eq!(parse_link(&s("://a/b")), Ok((s("a"), s("b"))));
}

#[test]
fn malformed_links_are_bad_requests() {
    for bad in [
        "malformed",
        "xbb://a",
        "xbb://a/b/c",
        "xbb://a/b://c",
        "x://y://a/b",
        "xbb:///b",
        "xbb://a/",
        "",
    ] {
        assert!(
            matches!(parse_link(&s(bad)), Err(ServiceError::BadRequest(_))),
            "{bad} should be refused"
        );
    }
}

#[test]
fn error_status_codes() {
    assert_eq!(ServiceError::BadRequest(s("x")).status_code(), 400);
    assert_eq!(ServiceError::Unauthorized(s("x")).status_code(), 401);
    assert_eq!(ServiceError::Forbidden(s("x")).status_code(), 403);
    assert_eq!(ServiceError::NotFound(s("x")).status_code(), 404);
    assert_eq!(ServiceError::Conflict(s("x")).status_code(), 409);
    assert_eq!(ServiceError::InternalServerError(s("x")).status_code(), 500);
    assert_eq!(ServiceError::NotFound(s("repo gone")).message(), "repo gone");
}

#[test]
fn repo_status_text() {
    assert_eq!(RepoStatus::Normal.as_str(), "normal");
    assert_eq!(RepoStatus::Deleted.as_str(), "deleted");
    assert_eq!(RepoStatus::from_str(&s("normal")), Ok(RepoStatus::Normal));
    assert_eq!(RepoStatus::from_str(&s("deleted")), Ok(RepoStatus::Deleted));
    assert!(matches!(
        RepoStatus::from_str(&s("archived")),
        Err(ServiceError::InternalServerError(_))
    ));
    assert!(RepoStatus::Normal.is_normal());
    assert!(!RepoStatus::Deleted.is_normal());
}

#[test]
fn login_registers_then_checks_password() {
    let mut store = Store::new();
    let req = || OpenApiNewUserRequest { name: s("bob"), password: s("pw") };
    let (created, is_new) = validate_login_at(&mut store, req(), s("u1"), 7).unwrap();
    assert!(is_new);
    assert_eq!(created.id, "u1");
    let (again, is_new) = validate_login(&mut store, req()).unwrap();
    assert!(!is_new);
    assert_eq!(again.id, "u1");
    let wrong = OpenApiNewUserRequest { name: s("bob"), password: s("nope") };
    assert!(matches!(validate_login(&mut store, wrong), Err(ServiceError::Unauthorized(_))));
    assert_eq!(store.users.rows.len(), 1);
}

#[test]
fn validator_checks_credentials() {
    let mut store = Store::new();
    add_user(&mut store, &User::with_id(s("u1"), s("bob"), s("pw"), 3)).unwrap();
    let v = UserValidator;
    assert_eq!(v.validate(&store, &s("bob"), &s("pw")), Some(s("u1")));
    assert_eq!(v.validate(&store, &s("bob"), &s("x")), None);
    assert_eq!(v.validate(&store, &s("eve"), &s("pw")), None);
    assert!(validate_user_name(&store, &s("bob")).exist);
    assert!(!validate_user_name(&store, &s("eve")).exist);
}

#[test]
fn new_users_get_distinct_ids() {
    let a = User::new(s("a"), s("p"));
    let b = User::new(s("b"), s("p"));
    assert_eq!(a.id.len(), 36);
    assert_ne!(a.id, b.id);
    assert_eq!(a.created_at, a.updated_at);
    assert!(a.created_at > 1_600_000_000_000);
}

#[test]
fn update_user_rules() {
    let mut store = Store::new();
    add_user(&mut store, &User::with_id(s("u1"), s("bob"), s("pw"), 3)).unwrap();
    add_user(&mut store, &User::with_id(s("u2"), s("carol"), s("pw"), 3)).unwrap();
    let req = |name: &str| OpenApiUpdateUserRequest {
        name: s(name),
        password: s("new"),
        avatar_url: Some(s("http://a")),
    };
    assert!(matches!(update_user(&mut store, &s("u9"), req("x")), Err(ServiceError::NotFound(_))));
    assert!(matches!(
        update_user(&mut store, &s("u1"), req("carol")),
        Err(ServiceError::Conflict(_))
    ));
    update_user_at(&mut store, &s("u1"), req("robert"), 9).unwrap();
    let u = get_user_by_id(&store, &s("u1")).unwrap();
    assert_eq!(u.name, "robert");
    assert_eq!(u.password, "new");
    assert_eq!(u.created_at, 3);
    assert_eq!(u.updated_at, 9);
    assert_eq!(get_user(&store, &s("robert")).unwrap().avatar_url, Some(s("http://a")));
    assert!(matches!(get_user(&store, &s("bob")), Err(ServiceError::NotFound(_))));
}
