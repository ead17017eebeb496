use vstd::prelude::*;

use crate::error::{fails_with, ErrorKind, ServiceError, ServiceResult};
use crate::table::Row;

verus! {

/// Soft-delete state of a repository.
#[derive(Debug, Clone, Copy, PartialEq, Eq, Structural)]
pub enum RepoStatus {
    Normal,
    Deleted,
}

/// How a status is written in storage.
pub open spec fn status_text(status: RepoStatus) -> Seq<char> {
    match status {
        RepoStatus::Normal => "normal"@,
        RepoStatus::Deleted => "deleted"@,
    }
}

impl RepoStatus {
    /// The status as storage writes it.
    pub fn as_str(&self) -> (r: &'static str)
        ensures
            r@ == status_text(*self),
    {
        match self {
            RepoStatus::Normal => "normal",
            RepoStatus::Deleted => "deleted",
        }
    }

    /// Reads a stored status; any other text is corrupt data.
    pub fn from_str(s: &String) -> (r: ServiceResult<RepoStatus>)
        ensures
            r is Ok <==> (s@ == status_text(RepoStatus::Normal) || s@ == status_text(
                RepoStatus::Deleted,
            )),
            s@ == status_text(RepoStatus::Normal) ==> r == Ok::<RepoStatus, ServiceError>(
                RepoStatus::Normal,
            ),
            s@ == status_text(RepoStatus::Deleted) ==> r == Ok::<RepoStatus, ServiceError>(
                RepoStatus::Deleted,
            ),
            r is Err ==> fails_with(r, ErrorKind::InternalServerError),
    {
        proof {
            lemma_status_text_injective(RepoStatus::Normal, RepoStatus::Deleted);
        }
        if *s == "normal".to_owned() {
            Ok(RepoStatus::Normal)
        } else if *s == "deleted".to_owned() {
            Ok(RepoStatus::Deleted)
        } else {
            Err(ServiceError::InternalServerError("invalid repo status".to_owned()))
        }
    }

    pub fn is_normal(&self) -> (r: bool)
        ensures
            r == (*self == RepoStatus::Normal),
    {
        match self {
            RepoStatus::Normal => true,
            RepoStatus::Deleted => false,
        }
    }
}

/// A copy of an optional string that keeps its value.
pub fn clone_opt(s: &Option<String>) -> (r: Option<String>)
    ensures
        r == *s,
{
    match s {
        Some(v) => Some(v.clone()),
        None => None,
    }
}

/// Distinct statuses are written differently, so reading back the text of a
/// status gives that status.
pub proof fn lemma_status_text_injective(status: RepoStatus, other: RepoStatus)
    ensures
        status_text(status) == status_text(other) ==> status == other,
{
    reveal_strlit("normal");
    reveal_strlit("deleted");
    assert("normal"@.len() != "deleted"@.len());
}

/// Timestamps are milliseconds since the Unix epoch, in UTC.
pub type Timestamp = i64;

/// A named content container owned by one user.
#[derive(Debug)]
pub struct Repo {
    pub id: String,
    pub name: String,
    /// The owner's user id; it never changes after creation.
    pub owner: String,
    pub description: String,
    pub created_at: Timestamp,
    pub updated_at: Timestamp,
    pub status: RepoStatus,
}

impl Clone for Repo {
    fn clone(&self) -> (r: Self)
        ensures
            r == *self,
    {
        Repo {
            id: self.id.clone(),
            name: self.name.clone(),
            owner: self.owner.clone(),
            description: self.description.clone(),
            created_at: self.created_at,
            updated_at: self.updated_at,
            status: self.status,
        }
    }
}

/// A post; it belongs to exactly one repo.
#[derive(Debug)]
pub struct Post {
    pub id: String,
    pub title: String,
    pub category: String,
    pub content: String,
    pub created_at: Timestamp,
    pub updated_at: Timestamp,
    pub author: String,
    pub repo_id: String,
}

impl Clone for Post {
    fn clone(&self) -> (r: Self)
        ensures
            r == *self,
    {
        Post {
            id: self.id.clone(),
            title: self.title.clone(),
            category: self.category.clone(),
            content: self.content.clone(),
            created_at: self.created_at,
            updated_at: self.updated_at,
            author: self.author.clone(),
            repo_id: self.repo_id.clone(),
        }
    }
}

/// What a listing shows of a post.
#[derive(Debug)]
pub struct PostSummary {
    pub id: String,
    pub title: String,
    pub category: String,
    pub created_at: Timestamp,
    pub updated_at: Timestamp,
}

impl PostSummary {
    pub open spec fn summary_of(post: Post) -> PostSummary {
        PostSummary {
            id: post.id,
            title: post.title,
            category: post.category,
            created_at: post.created_at,
            updated_at: post.updated_at,
        }
    }

    pub fn from_post(post: Post) -> (r: PostSummary)
        ensures
            r == PostSummary::summary_of(post),
    {
        PostSummary {
            id: post.id,
            title: post.title,
            category: post.category,
            created_at: post.created_at,
            updated_at: post.updated_at,
        }
    }
}

/// A comment on a post; `repo_id` is the repo of that post, kept here so that
/// access checks need no join.
#[derive(Debug)]
pub struct Comment {
    pub id: String,
    pub post_id: String,
    pub repo_id: String,
    pub content: String,
    pub created_at: Timestamp,
    pub updated_at: Timestamp,
    pub author: String,
    /// The comment this one answers, for threading.
    pub parent_id: Option<String>,
}

impl Clone for Comment {
    fn clone(&self) -> (r: Self)
        ensures
            r == *self,
    {
        Comment {
            id: self.id.clone(),
            post_id: self.post_id.clone(),
            repo_id: self.repo_id.clone(),
            content: self.content.clone(),
            created_at: self.created_at,
            updated_at: self.updated_at,
            author: self.author.clone(),
            parent_id: clone_opt(&self.parent_id),
        }
    }
}

/// A grant of read access on a repo to a user other than its owner.
#[derive(Debug)]
pub struct Subscription {
    pub id: String,
    /// The subscriber.
    pub user_id: String,
    pub repo_id: String,
}

impl Clone for Subscription {
    fn clone(&self) -> (r: Self)
        ensures
            r == *self,
    {
        Subscription {
            id: self.id.clone(),
            user_id: self.user_id.clone(),
            repo_id: self.repo_id.clone(),
        }
    }
}

/// A user; the name is unique.
#[derive(Debug)]
pub struct User {
    pub id: String,
    pub name: String,
    pub created_at: Timestamp,
    pub updated_at: Timestamp,
    pub password: String,
    pub avatar_url: Option<String>,
}

impl Clone for User {
    fn clone(&self) -> (r: Self)
        ensures
            r == *self,
    {
        User {
            id: self.id.clone(),
            name: self.name.clone(),
            created_at: self.created_at,
            updated_at: self.updated_at,
            password: self.password.clone(),
            avatar_url: clone_opt(&self.avatar_url),
        }
    }
}

impl User {
    /// A new user with a fresh id, created now.
    pub fn new(name: String, password: String) -> (r: User)
        ensures
            r.name == name,
            r.password == password,
            r.avatar_url is None,
            r.created_at == r.updated_at,
            r.id@.len() == 36,
    {
        let now = crate::fresh::now();
        User::with_id(crate::fresh::new_id(), name, password, now)
    }

    pub open spec fn with_id_spec(id: String, name: String, password: String, now: Timestamp) -> User {
        User { id, name, created_at: now, updated_at: now, password, avatar_url: None }
    }

    /// A user with the given id and credentials, created at `now`.
    pub fn with_id(id: String, name: String, password: String, now: Timestamp) -> (r: User)
        ensures
            r == User::with_id_spec(id, name, password, now),
    {
        User { id, name, created_at: now, updated_at: now, password, avatar_url: None }
    }
}

/// A repo as a client pushes it, with its own id.
#[derive(Debug)]
pub struct OpenApiPushRepoRequest {
    pub id: String,
    pub name: String,
    pub owner: String,
    pub description: String,
    pub created_at: Timestamp,
    pub updated_at: Timestamp,
}

impl OpenApiPushRepoRequest {
    pub open spec fn repo_of(self) -> Repo {
        Repo {
            id: self.id,
            name: self.name,
            owner: self.owner,
            description: self.description,
            created_at: self.created_at,
            updated_at: self.updated_at,
            status: RepoStatus::Normal,
        }
    }

    /// The pushed repo; a pushed repo is never deleted.
    pub fn into_repo(self) -> (r: Repo)
        ensures
            r == self.repo_of(),
    {
        Repo {
            id: self.id,
            name: self.name,
            owner: self.owner,
            description: self.description,
            created_at: self.created_at,
            updated_at: self.updated_at,
            status: RepoStatus::Normal,
        }
    }
}

/// A post as a client pushes it, with its own id.
#[derive(Debug)]
pub struct OpenApiPushPostRequest {
    pub id: String,
    pub category: String,
    pub title: String,
    pub content: String,
    pub created_at: Timestamp,
    pub updated_at: Timestamp,
    pub author: String,
    pub repo_id: String,
}

impl OpenApiPushPostRequest {
    pub open spec fn post_of(self) -> Post {
        Post {
            id: self.id,
            title: self.title,
            category: self.category,
            content: self.content,
            created_at: self.created_at,
            updated_at: self.updated_at,
            author: self.author,
            repo_id: self.repo_id,
        }
    }

    pub fn into_post(self) -> (r: Post)
        ensures
            r == self.post_of(),
    {
        Post {
            id: self.id,
            title: self.title,
            category: self.category,
            content: self.content,
            created_at: self.created_at,
            updated_at: self.updated_at,
            author: self.author,
            repo_id: self.repo_id,
        }
    }
}

/// A comment as a client pushes it: with an id to update, without one to insert.
#[derive(Debug)]
pub struct OpenApiPushCommentRequest {
    pub id: Option<String>,
    pub content: String,
    pub parent_id: Option<String>,
}

/// A subscription request, carrying a share link.
#[derive(Debug)]
pub struct OpenApiSubscribeLinkRequest {
    pub link: String,
}

/// Login-or-register credentials.
#[derive(Debug)]
pub struct OpenApiNewUserRequest {
    pub name: String,
    pub password: String,
}

/// What a user lookup shows: never the password.
#[derive(Debug)]
pub struct OpenApiGetUserResponse {
    pub id: String,
    pub name: String,
    pub avatar_url: Option<String>,
}

impl OpenApiGetUserResponse {
    pub open spec fn of_user(u: User) -> OpenApiGetUserResponse {
        OpenApiGetUserResponse { id: u.id, name: u.name, avatar_url: u.avatar_url }
    }

    pub fn from_user(u: User) -> (r: OpenApiGetUserResponse)
        ensures
            r == OpenApiGetUserResponse::of_user(u),
    {
        OpenApiGetUserResponse { id: u.id, name: u.name, avatar_url: u.avatar_url }
    }
}

/// A profile update.
#[derive(Debug)]
pub struct OpenApiUpdateUserRequest {
    pub name: String,
    pub password: String,
    pub avatar_url: Option<String>,
}

/// Whether a user name is taken.
#[derive(Debug)]
pub struct OpenApiValidateUserResponse {
    pub exist: bool,
}

/// Server settings.
#[derive(Debug)]
pub struct Config {
    pub log_path: Option<String>,
    pub cert: String,
    pub key: String,
    pub port: Option<u16>,
    pub latest_version: String,
}

impl Row for Repo {
    open spec fn key_of(&self) -> Seq<char> {
        self.id@
    }

    fn key(&self) -> (r: &String) {
        &self.id
    }

    fn copy_row(&self) -> (r: Self) {
        self.clone()
    }
}

impl Row for Post {
    open spec fn key_of(&self) -> Seq<char> {
        self.id@
    }

    fn key(&self) -> (r: &String) {
        &self.id
    }

    fn copy_row(&self) -> (r: Self) {
        self.clone()
    }
}

impl Row for Comment {
    open spec fn key_of(&self) -> Seq<char> {
        self.id@
    }

    fn key(&self) -> (r: &String) {
        &self.id
    }

    fn copy_row(&self) -> (r: Self) {
        self.clone()
    }
}

impl Row for Subscription {
    open spec fn key_of(&self) -> Seq<char> {
        self.id@
    }

    fn key(&self) -> (r: &String) {
        &self.id
    }

    fn copy_row(&self) -> (r: Self) {
        self.clone()
    }
}

impl Row for User {
    open spec fn key_of(&self) -> Seq<char> {
        self.id@
    }

    fn key(&self) -> (r: &String) {
        &self.id
    }

    fn copy_row(&self) -> (r: Self) {
        self.clone()
    }
}

} // verus!
