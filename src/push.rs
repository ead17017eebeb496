//! The upsert ("push") protocol for repos, posts and comments, and the reads
//! and deletes that go with them.

use vstd::prelude::*;

use crate::access::{can_read, can_write, check_owner_or_subscribe, check_repo_owner, denial};
use crate::error::{fails_with, ErrorKind, ServiceError, ServiceResult};
use crate::fresh::{new_id, now};
use crate::model::{
    Comment, PostSummary, OpenApiPushCommentRequest, OpenApiPushPostRequest, OpenApiPushRepoRequest,
    Post, Repo, RepoStatus, Timestamp,
};
use crate::store::{
    add_comment, add_post, add_repo, delete_comment_by_id, erase_post, get_comment_by_id,
    get_post_by_id, get_repo_by_id, list_comments_by_post_id, list_posts_by_repo_id, live,
    comment_on_post, post_in_repo, post_updated, repo_name, repo_name_free_for,
    repo_updated, update_comment, update_post, update_repo, Store, comment_updated,
};
use crate::table::{has_key, index_of, lemma_lookup_at, lemma_lookup_push, taken_by};

verus! {

/// Whether a push stored a new entity or updated an existing one.
#[derive(Debug, Clone, Copy, PartialEq, Eq, Structural)]
pub enum PushOutcome {
    Created,
    Updated,
}

impl PushOutcome {
    /// The HTTP status code of the outcome.
    pub fn status_code(&self) -> (r: u16)
        ensures
            r == match self {
                PushOutcome::Created => 201u16,
                PushOutcome::Updated => 200u16,
            },
    {
        match self {
            PushOutcome::Created => 201,
            PushOutcome::Updated => 200,
        }
    }
}

/// What pushing `post` into the repo `repo_id` as `caller` does, from the
/// store `old` to the store `new`, with result `r`.
pub open spec fn push_post_done(
    old: Store,
    new: Store,
    repo_id: Seq<char>,
    post: Post,
    caller: Seq<char>,
    r: ServiceResult<PushOutcome>,
) -> bool {
    let stored = old.post(post.id@);
    &&& new.users == old.users
    &&& new.repos == old.repos
    &&& new.comments == old.comments
    &&& new.subscriptions == old.subscriptions
    &&& r is Err ==> new.posts.rows@ == old.posts.rows@
    &&& post.repo_id@ != repo_id ==> fails_with(r, ErrorKind::NotFound)
    &&& post.repo_id@ == repo_id && post.author@ != caller ==> fails_with(r, ErrorKind::Forbidden)
    &&& post.repo_id@ == repo_id && post.author@ == caller && !can_write(old, repo_id, caller)
        ==> fails_with(r, ErrorKind::Forbidden)
    &&& post.repo_id@ == repo_id && post.author@ == caller && can_write(old, repo_id, caller) ==> {
        match stored {
            None => r == Ok::<PushOutcome, ServiceError>(PushOutcome::Created)
                && new.posts.rows@ == old.posts.rows@.push(post),
            Some(s) => if s.author@ == caller {
                r == Ok::<PushOutcome, ServiceError>(PushOutcome::Updated)
                    && new.posts.rows@ == old.posts.rows@.update(
                    index_of(old.posts.rows@, post.id@),
                    post_updated(s, post),
                )
            } else {
                fails_with(r, ErrorKind::Forbidden)
            },
        }
    }
}

/// Creates or updates a post that the client names by its own id. The post
/// must belong to the repo it is pushed into, the caller must be its declared
/// author (checked before any lookup) and own the repo, and an existing post
/// must already be the caller's. A repo that is absent, soft-deleted or
/// someone else's is refused as forbidden, like any other failed ownership
/// check of a push. An update keeps id, author and creation time.
pub fn push_post(
    store: &mut Store,
    repo_id: &String,
    req: OpenApiPushPostRequest,
    current_user_id: &String,
) -> (r: ServiceResult<PushOutcome>)
    requires
        old(store).wf(),
    ensures
        final(store).wf(),
        push_post_done(*old(store), *final(store), repo_id@, req.post_of(), current_user_id@, r),
{
    let post = req.into_post();
    if post.repo_id != *repo_id {
        return Err(ServiceError::NotFound("repo_id not match".to_owned()));
    }
    if post.author != *current_user_id {
        return Err(ServiceError::Forbidden("auth failed".to_owned()));
    }
    match get_repo_by_id(store, repo_id) {
        Some(repo) => {
            if repo.owner != *current_user_id {
                return Err(ServiceError::Forbidden("auth failed".to_owned()));
            }
        },
        None => {
            return Err(ServiceError::Forbidden("auth failed".to_owned()));
        },
    }
    match get_post_by_id(store, &post.id) {
        Some(stored) => {
            if stored.author != *current_user_id {
                return Err(ServiceError::Forbidden("auth failed".to_owned()));
            }
            proof {
                assert(has_key(store.posts.rows@, post.id@));
            }
            update_post(store, &post)?;
            Ok(PushOutcome::Updated)
        },
        None => {
            add_post(store, &post)?;
            Ok(PushOutcome::Created)
        },
    }
}

/// Pushing the same post twice stores it once: the first push creates it, the
/// second finds it and leaves the same row, creation time included.
pub proof fn lemma_push_post_twice(
    s0: Store,
    s1: Store,
    s2: Store,
    repo_id: Seq<char>,
    post: Post,
    caller: Seq<char>,
    r1: ServiceResult<PushOutcome>,
    r2: ServiceResult<PushOutcome>,
)
    requires
        s0.wf(),
        s1.wf(),
        s0.post(post.id@) is None,
        post.repo_id@ == repo_id,
        post.author@ == caller,
        can_write(s0, repo_id, caller),
        push_post_done(s0, s1, repo_id, post, caller, r1),
        push_post_done(s1, s2, repo_id, post, caller, r2),
    ensures
        r1 == Ok::<PushOutcome, ServiceError>(PushOutcome::Created),
        r2 == Ok::<PushOutcome, ServiceError>(PushOutcome::Updated),
        s2.posts.rows@.len() == s0.posts.rows@.len() + 1,
        s2.posts.rows@ == s1.posts.rows@,
        s2.post(post.id@) == Some(post),
{
    lemma_lookup_push(s0.posts.rows@, post, post.id@);
    assert(s1.post(post.id@) == Some(post));
    let i = index_of(s1.posts.rows@, post.id@);
    lemma_lookup_at(s1.posts.rows@, s0.posts.rows@.len() as int);
    assert(post_updated(post, post) == post);
    assert(s2.posts.rows@ =~= s1.posts.rows@);
}

/// What pushing `repo` as `caller` does, from `old` to `new`, with result `r`.
pub open spec fn push_repo_done(
    old: Store,
    new: Store,
    repo: Repo,
    caller: Seq<char>,
    r: ServiceResult<PushOutcome>,
) -> bool {
    let rows = old.repos.rows@;
    &&& new.users == old.users
    &&& new.posts == old.posts
    &&& new.comments == old.comments
    &&& new.subscriptions == old.subscriptions
    &&& r is Err ==> new.repos.rows@ == rows
    &&& repo.owner@ != caller ==> fails_with(r, ErrorKind::Forbidden)
    &&& repo.owner@ == caller ==> match live(old.repo(repo.id@)) {
        Some(s) => if s.owner@ != caller {
            fails_with(r, ErrorKind::Forbidden)
        } else if repo_name_free_for(rows, repo.name@, repo.id@) {
            r == Ok::<PushOutcome, ServiceError>(PushOutcome::Updated) && new.repos.rows@
                == rows.update(index_of(rows, repo.id@), repo_updated(s, repo))
        } else {
            fails_with(r, ErrorKind::Conflict)
        },
        None => if !has_key(rows, repo.id@) && !taken_by(rows, repo_name(), repo.name@) {
            r == Ok::<PushOutcome, ServiceError>(PushOutcome::Created) && new.repos.rows@
                == rows.push(repo)
        } else {
            fails_with(r, ErrorKind::Conflict)
        },
    }
}

/// Creates or updates a repo that the client names by its own id. The caller
/// must be its declared owner, and an existing repo must already be the
/// caller's. An update keeps id, owner and creation time.
pub fn push_repo(store: &mut Store, req: OpenApiPushRepoRequest, current_user_id: &String) -> (r:
    ServiceResult<PushOutcome>)
    requires
        old(store).wf(),
    ensures
        final(store).wf(),
        push_repo_done(*old(store), *final(store), req.repo_of(), current_user_id@, r),
{
    let repo = req.into_repo();
    if *current_user_id != repo.owner {
        return Err(ServiceError::Forbidden("auth failed".to_owned()));
    }
    match get_repo_by_id(store, &repo.id) {
        Some(stored) => {
            if *current_user_id != stored.owner {
                return Err(ServiceError::Forbidden("auth failed".to_owned()));
            }
            update_repo(store, &repo)?;
            Ok(PushOutcome::Updated)
        },
        None => {
            add_repo(store, &repo)?;
            Ok(PushOutcome::Created)
        },
    }
}

/// The comment that an insert stores.
pub open spec fn new_comment(
    id: String,
    post_id: String,
    repo_id: String,
    req: OpenApiPushCommentRequest,
    caller: String,
    now: Timestamp,
) -> Comment {
    Comment {
        id,
        post_id,
        repo_id,
        content: req.content,
        created_at: now,
        updated_at: now,
        author: caller,
        parent_id: req.parent_id,
    }
}

/// The post exists and belongs to the repo.
pub open spec fn post_in(store: Store, repo_id: Seq<char>, post_id: Seq<char>) -> bool {
    store.post(post_id) is Some && store.post(post_id)->Some_0.repo_id@ == repo_id
}

/// The comment exists and sits under that post of that repo.
pub open spec fn comment_in(
    store: Store,
    repo_id: Seq<char>,
    post_id: Seq<char>,
    comment_id: Seq<char>,
) -> bool {
    &&& store.comment(comment_id) is Some
    &&& store.comment(comment_id)->Some_0.post_id@ == post_id
    &&& store.comment(comment_id)->Some_0.repo_id@ == repo_id
}

/// What pushing a comment does, with `id` as the id of a new comment and
/// `now` as the current time.
pub open spec fn push_comment_done(
    old: Store,
    new: Store,
    repo_id: String,
    post_id: String,
    req: OpenApiPushCommentRequest,
    caller: String,
    id: String,
    now: Timestamp,
    r: ServiceResult<PushOutcome>,
) -> bool {
    let rows = old.comments.rows@;
    &&& new.users == old.users
    &&& new.repos == old.repos
    &&& new.posts == old.posts
    &&& new.subscriptions == old.subscriptions
    &&& r is Err ==> new.comments.rows@ == rows
    &&& !can_read(old, repo_id@, caller@) ==> fails_with(r, denial(old, repo_id@))
    &&& can_read(old, repo_id@, caller@) && !post_in(old, repo_id@, post_id@) ==> fails_with(
        r,
        ErrorKind::NotFound,
    )
    &&& can_read(old, repo_id@, caller@) && post_in(old, repo_id@, post_id@) ==> match req.id {
        None => if !has_key(rows, id@) {
            r == Ok::<PushOutcome, ServiceError>(PushOutcome::Created) && new.comments.rows@
                == rows.push(new_comment(id, post_id, repo_id, req, caller, now))
        } else {
            fails_with(r, ErrorKind::Conflict)
        },
        Some(cid) => if !comment_in(old, repo_id@, post_id@, cid@) {
            fails_with(r, ErrorKind::NotFound)
        } else if old.comment(cid@)->Some_0.author@ != caller@ {
            fails_with(r, ErrorKind::Forbidden)
        } else {
            r == Ok::<PushOutcome, ServiceError>(PushOutcome::Updated) && new.comments.rows@
                == rows.update(
                index_of(rows, cid@),
                comment_updated(
                    old.comment(cid@)->Some_0,
                    new_comment(cid, post_id, repo_id, req, caller, now),
                ),
            )
        },
    }
}

/// Creates or edits a comment on a post, as a caller who may read the repo.
/// Without an id it inserts a comment by the caller under `id`, created at
/// `now`; with one it edits that comment, which must be the caller's own: only
/// content, parent and update time change.
///
/// Comments are the one kind of content that readers write: subscribers may
/// comment, not only the owner, since comments by users other than the repo's
/// owner exist and are guarded by authorship (an edit or a delete needs the
/// comment's author, whoever owns the repo). A caller without read access may
/// not comment, so a comment never reaches a repo its author cannot see.
pub fn push_comment_at(
    store: &mut Store,
    repo_id: &String,
    post_id: &String,
    req: OpenApiPushCommentRequest,
    current_user_id: &String,
    id: String,
    now: Timestamp,
) -> (r: ServiceResult<PushOutcome>)
    requires
        old(store).wf(),
    ensures
        final(store).wf(),
        push_comment_done(
            *old(store),
            *final(store),
            *repo_id,
            *post_id,
            req,
            *current_user_id,
            id,
            now,
            r,
        ),
{
    let ghost req0 = req;
    let ghost id0 = id;
    check_owner_or_subscribe(store, repo_id, current_user_id)?;
    match get_post_by_id(store, post_id) {
        Some(post) => {
            if post.repo_id != *repo_id {
                return Err(ServiceError::NotFound("post not found".to_owned()));
            }
        },
        None => {
            return Err(ServiceError::NotFound("post not found".to_owned()));
        },
    }
    match req.id {
        Some(cid) => {
            let stored = match get_comment_by_id(store, &cid) {
                Some(c) => c,
                None => {
                    return Err(ServiceError::NotFound("comment not found".to_owned()));
                },
            };
            if stored.post_id != *post_id || stored.repo_id != *repo_id {
                return Err(ServiceError::NotFound("comment not found".to_owned()));
            }
            if stored.author != *current_user_id {
                return Err(ServiceError::Forbidden("forbidden".to_owned()));
            }
            let comment = Comment {
                id: cid,
                post_id: post_id.clone(),
                repo_id: repo_id.clone(),
                content: req.content,
                created_at: now,
                updated_at: now,
                author: current_user_id.clone(),
                parent_id: req.parent_id,
            };
            proof {
                assert(comment == new_comment(
                    comment.id,
                    *post_id,
                    *repo_id,
                    req0,
                    *current_user_id,
                    now,
                ));
            }
            update_comment(store, &comment)?;
            Ok(PushOutcome::Updated)
        },
        None => {
            let comment = Comment {
                id,
                post_id: post_id.clone(),
                repo_id: repo_id.clone(),
                content: req.content,
                created_at: now,
                updated_at: now,
                author: current_user_id.clone(),
                parent_id: req.parent_id,
            };
            proof {
                assert(comment == new_comment(id0, *post_id, *repo_id, req0, *current_user_id, now));
            }
            add_comment(store, &comment)?;
            Ok(PushOutcome::Created)
        },
    }
}

/// [`push_comment_at`] with a fresh id and the current time.
pub fn push_comment(
    store: &mut Store,
    repo_id: &String,
    post_id: &String,
    req: OpenApiPushCommentRequest,
    current_user_id: &String,
) -> (r: ServiceResult<PushOutcome>)
    requires
        old(store).wf(),
    ensures
        final(store).wf(),
        exists|id: String, t: Timestamp|
            push_comment_done(
                *old(store),
                *final(store),
                *repo_id,
                *post_id,
                req,
                *current_user_id,
                id,
                t,
                r,
            ),
{
    let id = new_id();
    let t = now();
    let ghost id0 = id;
    let r = push_comment_at(store, repo_id, post_id, req, current_user_id, id, t);
    proof {
        assert(push_comment_done(
            *old(store),
            *final(store),
            *repo_id,
            *post_id,
            req,
            *current_user_id,
            id0,
            t,
            r,
        ));
    }
    r
}

/// Deletes a comment. Only its author may: owning the repo is not enough.
pub fn delete_comment(
    store: &mut Store,
    repo_id: &String,
    post_id: &String,
    comment_id: &String,
    current_user_id: &String,
) -> (r: ServiceResult<()>)
    requires
        old(store).wf(),
    ensures
        final(store).wf(),
        final(store).users == old(store).users,
        final(store).repos == old(store).repos,
        final(store).posts == old(store).posts,
        final(store).subscriptions == old(store).subscriptions,
        !comment_in(*old(store), repo_id@, post_id@, comment_id@) ==> fails_with(
            r,
            ErrorKind::NotFound,
        ),
        comment_in(*old(store), repo_id@, post_id@, comment_id@) ==> if old(store).comment(
            comment_id@,
        )->Some_0.author@ == current_user_id@ {
            r is Ok && final(store).comments.rows@ == old(store).comments.rows@.remove(
                index_of(old(store).comments.rows@, comment_id@),
            )
        } else {
            fails_with(r, ErrorKind::Forbidden)
        },
        r is Err ==> final(store).comments.rows@ == old(store).comments.rows@,
{
    let comment = match get_comment_by_id(store, comment_id) {
        Some(c) => c,
        None => {
            return Err(ServiceError::NotFound("comment not found".to_owned()));
        },
    };
    if comment.post_id != *post_id || comment.repo_id != *repo_id {
        return Err(ServiceError::NotFound("comment not found".to_owned()));
    }
    if comment.author != *current_user_id {
        return Err(ServiceError::Forbidden("forbidden".to_owned()));
    }
    proof {
        assert(has_key(store.comments.rows@, comment_id@));
    }
    delete_comment_by_id(store, comment_id)
}

/// Deletes a post of a repo that the caller owns.
pub fn delete_post(store: &mut Store, repo_id: &String, post_id: &String, current_user_id: &String) -> (r:
    ServiceResult<()>)
    requires
        old(store).wf(),
    ensures
        final(store).wf(),
        final(store).users == old(store).users,
        final(store).repos == old(store).repos,
        final(store).comments == old(store).comments,
        final(store).subscriptions == old(store).subscriptions,
        !can_write(*old(store), repo_id@, current_user_id@) ==> fails_with(
            r,
            denial(*old(store), repo_id@),
        ),
        can_write(*old(store), repo_id@, current_user_id@) && !post_in(
            *old(store),
            repo_id@,
            post_id@,
        ) ==> fails_with(r, ErrorKind::NotFound),
        can_write(*old(store), repo_id@, current_user_id@) && post_in(
            *old(store),
            repo_id@,
            post_id@,
        ) ==> r is Ok && final(store).posts.rows@ == old(store).posts.rows@.remove(
            index_of(old(store).posts.rows@, post_id@),
        ),
        r is Err ==> final(store).posts.rows@ == old(store).posts.rows@,
{
    check_repo_owner(store, repo_id, current_user_id)?;
    match get_post_by_id(store, post_id) {
        Some(post) => {
            if post.repo_id != *repo_id {
                return Err(ServiceError::NotFound("post not found".to_owned()));
            }
        },
        None => {
            return Err(ServiceError::NotFound("post not found".to_owned()));
        },
    }
    proof {
        assert(has_key(store.posts.rows@, post_id@));
    }
    erase_post(store, post_id)
}

/// The repo as a soft delete leaves it.
pub open spec fn deleted(repo: Repo) -> Repo {
    Repo { status: RepoStatus::Deleted, ..repo }
}

/// Soft-deletes a repo of the caller. A repo that is absent, already deleted,
/// or someone else's is reported as not found alike.
pub fn delete_repo(store: &mut Store, repo_id: &String, current_user_id: &String) -> (r:
    ServiceResult<()>)
    requires
        old(store).wf(),
    ensures
        final(store).wf(),
        final(store).users == old(store).users,
        final(store).posts == old(store).posts,
        final(store).comments == old(store).comments,
        final(store).subscriptions == old(store).subscriptions,
        !can_write(*old(store), repo_id@, current_user_id@) ==> fails_with(r, ErrorKind::NotFound),
        can_write(*old(store), repo_id@, current_user_id@) ==> r is Ok && final(store).repos.rows@
            == old(store).repos.rows@.update(
            index_of(old(store).repos.rows@, repo_id@),
            deleted(old(store).repo(repo_id@)->Some_0),
        ),
        r is Err ==> final(store).repos.rows@ == old(store).repos.rows@,
{
    let mut repo = match get_repo_by_id(store, repo_id) {
        Some(repo) => repo,
        None => {
            return Err(ServiceError::NotFound("repo not found".to_owned()));
        },
    };
    if *current_user_id != repo.owner {
        return Err(ServiceError::NotFound("repo not found".to_owned()));
    }
    let ghost stored = repo;
    repo.status = RepoStatus::Deleted;
    proof {
        let rows = store.repos.rows@;
        let i = index_of(rows, repo_id@);
        assert(has_key(rows, repo_id@));
        assert forall|j: int| 0 <= j < rows.len() && #[trigger] rows[j].name@ == repo.name@
            implies rows[j].id@ == repo.id@ by {
            assert(crate::store::repo_name()(rows[j]) == crate::store::repo_name()(rows[i]));
        }
        assert(repo_updated(stored, repo) == deleted(stored));
    }
    match update_repo(store, &repo) {
        Ok(()) => Ok(()),
        Err(e) => Err(e),
    }
}

/// The posts of a repo that the caller may read.
pub fn list_post(store: &Store, repo_id: &String, current_user_id: &String) -> (r: ServiceResult<
    Vec<Post>,
>)
    requires
        store.wf(),
    ensures
        !can_read(*store, repo_id@, current_user_id@) ==> fails_with(r, denial(*store, repo_id@)),
        can_read(*store, repo_id@, current_user_id@) ==> r is Ok && r->Ok_0@
            == store.posts.rows@.filter(post_in_repo(repo_id@)),
{
    check_owner_or_subscribe(store, repo_id, current_user_id)?;
    Ok(list_posts_by_repo_id(store, repo_id))
}

/// A post of a repo that the caller may read.
pub fn get_post(store: &Store, repo_id: &String, post_id: &String, current_user_id: &String) -> (r:
    ServiceResult<Post>)
    requires
        store.wf(),
    ensures
        !can_read(*store, repo_id@, current_user_id@) ==> fails_with(r, denial(*store, repo_id@)),
        can_read(*store, repo_id@, current_user_id@) && !post_in(*store, repo_id@, post_id@)
            ==> fails_with(r, ErrorKind::NotFound),
        can_read(*store, repo_id@, current_user_id@) && post_in(*store, repo_id@, post_id@) ==> r
            == Ok::<Post, ServiceError>(store.post(post_id@)->Some_0),
{
    check_owner_or_subscribe(store, repo_id, current_user_id)?;
    match get_post_by_id(store, post_id) {
        Some(post) => if post.repo_id == *repo_id {
            Ok(post)
        } else {
            Err(ServiceError::NotFound("post not found".to_owned()))
        },
        None => Err(ServiceError::NotFound("post not found".to_owned())),
    }
}

/// The comments on a post of a repo that the caller may read.
pub fn list_comment(
    store: &Store,
    repo_id: &String,
    post_id: &String,
    current_user_id: &String,
) -> (r: ServiceResult<Vec<Comment>>)
    requires
        store.wf(),
    ensures
        !can_read(*store, repo_id@, current_user_id@) ==> fails_with(r, denial(*store, repo_id@)),
        can_read(*store, repo_id@, current_user_id@) && !post_in(*store, repo_id@, post_id@)
            ==> fails_with(r, ErrorKind::NotFound),
        can_read(*store, repo_id@, current_user_id@) && post_in(*store, repo_id@, post_id@) ==> r is Ok
            && r->Ok_0@ == store.comments.rows@.filter(comment_on_post(post_id@)),
{
    get_post(store, repo_id, post_id, current_user_id)?;
    Ok(list_comments_by_post_id(store, post_id))
}

/// A comment under a post of a repo that the caller may read.
pub fn get_comment(
    store: &Store,
    repo_id: &String,
    post_id: &String,
    comment_id: &String,
    current_user_id: &String,
) -> (r: ServiceResult<Comment>)
    requires
        store.wf(),
    ensures
        !can_read(*store, repo_id@, current_user_id@) ==> fails_with(r, denial(*store, repo_id@)),
        can_read(*store, repo_id@, current_user_id@) && !comment_in(
            *store,
            repo_id@,
            post_id@,
            comment_id@,
        ) ==> fails_with(r, ErrorKind::NotFound),
        can_read(*store, repo_id@, current_user_id@) && comment_in(
            *store,
            repo_id@,
            post_id@,
            comment_id@,
        ) ==> r == Ok::<Comment, ServiceError>(store.comment(comment_id@)->Some_0),
{
    check_owner_or_subscribe(store, repo_id, current_user_id)?;
    match get_comment_by_id(store, comment_id) {
        Some(comment) => if comment.post_id == *post_id && comment.repo_id == *repo_id {
            Ok(comment)
        } else {
            Err(ServiceError::NotFound("comment not found".to_owned()))
        },
        None => Err(ServiceError::NotFound("comment not found".to_owned())),
    }
}

/// One of the caller's own repos; any other is not found.
pub fn get_repo(store: &Store, repo_id: &String, current_user_id: &String) -> (r: ServiceResult<
    Repo,
>)
    requires
        store.wf(),
    ensures
        can_write(*store, repo_id@, current_user_id@) ==> r == Ok::<Repo, ServiceError>(
            live(store.repo(repo_id@))->Some_0,
        ),
        !can_write(*store, repo_id@, current_user_id@) ==> fails_with(r, ErrorKind::NotFound),
{
    match get_repo_by_id(store, repo_id) {
        Some(repo) => if repo.owner == *current_user_id {
            Ok(repo)
        } else {
            Err(ServiceError::NotFound("repo not found".to_owned()))
        },
        None => Err(ServiceError::NotFound("repo not found".to_owned())),
    }
}

/// A repo that the caller may read, with a summary of each of its posts.
pub fn repo_summary(store: &Store, repo_id: &String, current_user_id: &String) -> (r: ServiceResult<
    (Repo, Vec<PostSummary>),
>)
    requires
        store.wf(),
    ensures
        !can_read(*store, repo_id@, current_user_id@) ==> fails_with(r, denial(*store, repo_id@)),
        can_read(*store, repo_id@, current_user_id@) ==> {
            let posts = store.posts.rows@.filter(post_in_repo(repo_id@));
            &&& r is Ok
            &&& r->Ok_0.0 == live(store.repo(repo_id@))->Some_0
            &&& r->Ok_0.1@.len() == posts.len()
            &&& forall|i: int|
                0 <= i < posts.len() ==> #[trigger] r->Ok_0.1@[i] == PostSummary::summary_of(
                    posts[i],
                )
        },
{
    check_owner_or_subscribe(store, repo_id, current_user_id)?;
    let repo = match get_repo_by_id(store, repo_id) {
        Some(repo) => repo,
        None => {
            return Err(ServiceError::NotFound("repo not found".to_owned()));
        },
    };
    let posts = list_posts_by_repo_id(store, repo_id);
    let n = posts.len();
    let mut out: Vec<PostSummary> = Vec::new();
    let mut i: usize = 0;
    while i < n
        invariant
            n == posts@.len(),
            i <= n,
            out@.len() == i,
            forall|j: int| 0 <= j < i ==> #[trigger] out@[j] == PostSummary::summary_of(posts@[j]),
        decreases n - i,
    {
        out.push(PostSummary::from_post(posts[i].clone()));
        i += 1;
    }
    Ok((repo, out))
}

} // verus!
