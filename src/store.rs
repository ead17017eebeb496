//! The entity store: create, read, update and delete of users, repos, posts,
//! comments and subscriptions, keyed by their string ids.

use vstd::prelude::*;

use crate::error::{fails_with, ErrorKind, ServiceError, ServiceResult};
use crate::fresh::new_id;
use crate::model::{Comment, Post, Repo, RepoStatus, Subscription, User};
use crate::table::{
    has_key, index_of, lemma_unique_push, lemma_unique_remove, lemma_unique_update,
    lookup, taken_by, unique_by, Row, Table,
};

verus! {

pub open spec fn repo_name() -> spec_fn(Repo) -> Seq<char> {
    |r: Repo| r.name@
}

pub open spec fn user_name() -> spec_fn(User) -> Seq<char> {
    |u: User| u.name@
}

/// A subscription's (subscriber, repo) pair.
pub open spec fn grant() -> spec_fn(Subscription) -> (Seq<char>, Seq<char>) {
    |s: Subscription| (s.user_id@, s.repo_id@)
}

/// Repos of `owner` that are not soft-deleted.
pub open spec fn live_owned_by(owner: Seq<char>) -> spec_fn(Repo) -> bool {
    |r: Repo| r.owner@ == owner && r.status == RepoStatus::Normal
}

pub open spec fn post_in_repo(repo_id: Seq<char>) -> spec_fn(Post) -> bool {
    |p: Post| p.repo_id@ == repo_id
}

pub open spec fn comment_on_post(post_id: Seq<char>) -> spec_fn(Comment) -> bool {
    |c: Comment| c.post_id@ == post_id
}

pub open spec fn subscription_of(user_id: Seq<char>) -> spec_fn(Subscription) -> bool {
    |s: Subscription| s.user_id@ == user_id
}

/// Whether a subscription of `user_id` to `repo_id` is stored.
pub open spec fn subscribed(s: Seq<Subscription>, user_id: Seq<char>, repo_id: Seq<char>) -> bool {
    taken_by(s, grant(), (user_id, repo_id))
}

/// A repo as reads see it: soft-deleted repos are absent.
pub open spec fn live(r: Option<Repo>) -> Option<Repo> {
    match r {
        Some(repo) => if repo.status == RepoStatus::Normal {
            Some(repo)
        } else {
            None
        },
        None => None,
    }
}

/// All entities, one table per kind.
#[derive(Debug)]
pub struct Store {
    pub users: Table<User>,
    pub repos: Table<Repo>,
    pub posts: Table<Post>,
    pub comments: Table<Comment>,
    pub subscriptions: Table<Subscription>,
}

impl Store {
    /// Ids are unique in each table; user names and repo names are unique; a
    /// user holds at most one subscription per repo.
    pub open spec fn wf(&self) -> bool {
        &&& self.users.wf()
        &&& self.repos.wf()
        &&& self.posts.wf()
        &&& self.comments.wf()
        &&& self.subscriptions.wf()
        &&& unique_by(self.users.rows@, user_name())
        &&& unique_by(self.repos.rows@, repo_name())
        &&& unique_by(self.subscriptions.rows@, grant())
    }

    pub open spec fn repo(&self, id: Seq<char>) -> Option<Repo> {
        lookup(self.repos.rows@, id)
    }

    pub open spec fn post(&self, id: Seq<char>) -> Option<Post> {
        lookup(self.posts.rows@, id)
    }

    pub open spec fn comment(&self, id: Seq<char>) -> Option<Comment> {
        lookup(self.comments.rows@, id)
    }

    pub open spec fn user(&self, id: Seq<char>) -> Option<User> {
        lookup(self.users.rows@, id)
    }

    /// The user with the given name, if any.
    pub open spec fn user_named(&self, name: Seq<char>) -> Option<User> {
        let rows = self.users.rows@;
        if taken_by(rows, user_name(), name) {
            Some(rows[choose|i: int| 0 <= i < rows.len() && #[trigger] user_name()(rows[i]) == name])
        } else {
            None
        }
    }

    pub open spec fn is_subscribed(&self, user_id: Seq<char>, repo_id: Seq<char>) -> bool {
        subscribed(self.subscriptions.rows@, user_id, repo_id)
    }

    /// An empty store.
    pub fn new() -> (r: Store)
        ensures
            r.wf(),
            r.users.rows@.len() == 0,
            r.repos.rows@.len() == 0,
            r.posts.rows@.len() == 0,
            r.comments.rows@.len() == 0,
            r.subscriptions.rows@.len() == 0,
    {
        Store {
            users: Table::new(),
            repos: Table::new(),
            posts: Table::new(),
            comments: Table::new(),
            subscriptions: Table::new(),
        }
    }
}

/// Where a row with the given name stands, by a scan.
fn position_by_repo_name(s: &Vec<Repo>, name: &String) -> (r: Option<usize>)
    ensures
        match r {
            Some(i) => i < s@.len() && s@[i as int].name@ == name@,
            None => !taken_by(s@, repo_name(), name@),
        },
{
    let n = s.len();
    let mut i: usize = 0;
    while i < n
        invariant
            n == s@.len(),
            i <= n,
            forall|j: int| 0 <= j < i ==> #[trigger] s@[j].name@ != name@,
        decreases n - i,
    {
        if s[i].name == *name {
            return Some(i);
        }
        i += 1;
    }
    proof {
        assert forall|j: int| 0 <= j < s@.len() implies #[trigger] repo_name()(s@[j]) != name@ by {
            assert(s@[j].name@ != name@);
        }
    }
    None
}

/// Stores a new repo; its id and its name must both be free.
pub fn add_repo(store: &mut Store, repo: &Repo) -> (r: ServiceResult<()>)
    requires
        old(store).wf(),
    ensures
        final(store).wf(),
        final(store).users == old(store).users,
        final(store).posts == old(store).posts,
        final(store).comments == old(store).comments,
        final(store).subscriptions == old(store).subscriptions,
        r is Ok <==> (!has_key(old(store).repos.rows@, repo.id@) && !taken_by(
            old(store).repos.rows@,
            repo_name(),
            repo.name@,
        )),
        r is Ok ==> final(store).repos.rows@ == old(store).repos.rows@.push(*repo),
        r is Err ==> fails_with(r, ErrorKind::Conflict) && final(store).repos.rows@ == old(store).repos.rows@,
{
    if let Some(i) = position_by_repo_name(&store.repos.rows, &repo.name) {
        proof {
            assert(repo_name()(store.repos.rows@[i as int]) == repo.name@);
        }
        return Err(ServiceError::Conflict("repo name exists".to_owned()));
    }
    let ghost before = store.repos.rows@;
    if store.repos.insert(repo.clone()) {
        proof {
            lemma_unique_push(before, repo_name(), *repo);
        }
        Ok(())
    } else {
        Err(ServiceError::Conflict("repo id exists".to_owned()))
    }
}

/// No repo but `id` holds `name`.
pub open spec fn repo_name_free_for(s: Seq<Repo>, name: Seq<char>, id: Seq<char>) -> bool {
    forall|j: int| 0 <= j < s.len() && #[trigger] s[j].name@ == name ==> s[j].id@ == id
}

/// What an update keeps of a stored repo, and what it takes from the new one:
/// id, owner and creation time never change.
pub open spec fn repo_updated(stored: Repo, new: Repo) -> Repo {
    Repo {
        id: stored.id,
        name: new.name,
        owner: stored.owner,
        description: new.description,
        created_at: stored.created_at,
        updated_at: new.updated_at,
        status: new.status,
    }
}

/// Updates name, description, update time and status of a stored repo.
pub fn update_repo(store: &mut Store, repo: &Repo) -> (r: ServiceResult<()>)
    requires
        old(store).wf(),
    ensures
        final(store).wf(),
        final(store).users == old(store).users,
        final(store).posts == old(store).posts,
        final(store).comments == old(store).comments,
        final(store).subscriptions == old(store).subscriptions,
        r is Ok <==> (has_key(old(store).repos.rows@, repo.id@) && repo_name_free_for(
            old(store).repos.rows@,
            repo.name@,
            repo.id@,
        )),
        r is Ok ==> final(store).repos.rows@ == old(store).repos.rows@.update(
            index_of(old(store).repos.rows@, repo.id@),
            repo_updated(old(store).repo(repo.id@).unwrap(), *repo),
        ),
        r is Err ==> final(store).repos.rows@ == old(store).repos.rows@,
        !has_key(old(store).repos.rows@, repo.id@) ==> fails_with(r, ErrorKind::NotFound),
        has_key(old(store).repos.rows@, repo.id@) && r is Err ==> fails_with(r, ErrorKind::Conflict),
{
    let stored = match store.repos.get(&repo.id) {
        Some(x) => x,
        None => {
            return Err(ServiceError::NotFound("repo not found".to_owned()));
        },
    };
    let ghost before = store.repos.rows@;
    let ghost i = index_of(before, repo.id@);
    proof {
        crate::table::lemma_lookup_at(before, i);
    }
    let found = position_by_repo_name(&store.repos.rows, &repo.name);
    if let Some(k) = found {
        if store.repos.rows[k].id != repo.id {
            proof {
                assert(before[k as int].name@ == repo.name@);
            }
            return Err(ServiceError::Conflict("repo name exists".to_owned()));
        }
    }
    let row = Repo {
        id: stored.id,
        name: repo.name.clone(),
        owner: stored.owner,
        description: repo.description.clone(),
        created_at: stored.created_at,
        updated_at: repo.updated_at,
        status: repo.status,
    };
    proof {
        assert forall|j: int| 0 <= j < before.len() && #[trigger] before[j].name@ == repo.name@
            implies before[j].id@ == repo.id@ by {
            let k = found->Some_0 as int;
            assert(repo_name()(before[j]) == repo.name@);
            assert(repo_name()(before[j]) == repo_name()(before[k]));
        }
        assert forall|j: int| 0 <= j < before.len() && j != i implies #[trigger] repo_name()(
            before[j],
        ) != repo_name()(row) by {
            if before[j].name@ == repo.name@ {
                assert(before[j].id@ == repo.id@);
                assert(before[j].key_of() == before[i].key_of());
            }
        }
        lemma_unique_update(before, repo_name(), i, row);
    }
    store.repos.replace(row);
    Ok(())
}

/// The owner's repos that are not soft-deleted, in the order they were stored.
pub fn list_repos_by_owner_id(store: &Store, owner_id: &String) -> (r: Vec<Repo>)
    ensures
        r@ == store.repos.rows@.filter(live_owned_by(owner_id@)),
{
    let rows = &store.repos.rows;
    let n = rows.len();
    let mut out: Vec<Repo> = Vec::new();
    let mut i: usize = 0;
    while i < n
        invariant
            n == rows@.len(),
            i <= n,
            out@ == rows@.subrange(0, i as int).filter(live_owned_by(owner_id@)),
        decreases n - i,
    {
        if rows[i].owner == *owner_id && rows[i].status.is_normal() {
            out.push(rows[i].clone());
        }
        proof {
            let p = live_owned_by(owner_id@);
            reveal(Seq::filter);
            let done = rows@.subrange(0, i + 1);
            assert(done.drop_last() =~= rows@.subrange(0, i as int));
            assert(done.last() == rows@[i as int]);
            assert(done.filter(p) == (if p(done.last()) {
                done.drop_last().filter(p).push(done.last())
            } else {
                done.drop_last().filter(p)
            }));
        }
        i += 1;
    }
    proof {
        assert(rows@.subrange(0, n as int) =~= rows@);
    }
    out
}

/// The repo with the given id, unless it is absent or soft-deleted.
pub fn get_repo_by_id(store: &Store, repo_id: &String) -> (r: Option<Repo>)
    requires
        store.wf(),
    ensures
        r == live(store.repo(repo_id@)),
{
    match store.repos.get(repo_id) {
        Some(repo) => if repo.status.is_normal() {
            Some(repo)
        } else {
            None
        },
        None => None,
    }
}

/// Stores a new post; its id must be free.
pub fn add_post(store: &mut Store, post: &Post) -> (r: ServiceResult<()>)
    requires
        old(store).wf(),
    ensures
        final(store).wf(),
        final(store).users == old(store).users,
        final(store).repos == old(store).repos,
        final(store).comments == old(store).comments,
        final(store).subscriptions == old(store).subscriptions,
        r is Ok <==> !has_key(old(store).posts.rows@, post.id@),
        r is Ok ==> final(store).posts.rows@ == old(store).posts.rows@.push(*post),
        r is Err ==> fails_with(r, ErrorKind::Conflict) && final(store).posts.rows@ == old(
            store,
        ).posts.rows@,
{
    if store.posts.insert(post.clone()) {
        Ok(())
    } else {
        Err(ServiceError::Conflict("post id exists".to_owned()))
    }
}

/// The posts of a repo, in the order they were stored.
pub fn list_posts_by_repo_id(store: &Store, repo_id: &String) -> (r: Vec<Post>)
    ensures
        r@ == store.posts.rows@.filter(post_in_repo(repo_id@)),
{
    let rows = &store.posts.rows;
    let n = rows.len();
    let mut out: Vec<Post> = Vec::new();
    let mut i: usize = 0;
    while i < n
        invariant
            n == rows@.len(),
            i <= n,
            out@ == rows@.subrange(0, i as int).filter(post_in_repo(repo_id@)),
        decreases n - i,
    {
        if rows[i].repo_id == *repo_id {
            out.push(rows[i].clone());
        }
        proof {
            let p = post_in_repo(repo_id@);
            reveal(Seq::filter);
            let done = rows@.subrange(0, i + 1);
            assert(done.drop_last() =~= rows@.subrange(0, i as int));
            assert(done.last() == rows@[i as int]);
            assert(done.filter(p) == (if p(done.last()) {
                done.drop_last().filter(p).push(done.last())
            } else {
                done.drop_last().filter(p)
            }));
        }
        i += 1;
    }
    proof {
        assert(rows@.subrange(0, n as int) =~= rows@);
    }
    out
}

pub fn get_post_by_id(store: &Store, id: &String) -> (r: Option<Post>)
    requires
        store.wf(),
    ensures
        r == store.post(id@),
{
    store.posts.get(id)
}

/// What an update keeps of a stored post: id, author and creation time.
pub open spec fn post_updated(stored: Post, new: Post) -> Post {
    Post {
        id: stored.id,
        title: new.title,
        category: new.category,
        content: new.content,
        created_at: stored.created_at,
        updated_at: new.updated_at,
        author: stored.author,
        repo_id: new.repo_id,
    }
}

/// Updates title, category, content, update time and repo of a stored post.
pub fn update_post(store: &mut Store, post: &Post) -> (r: ServiceResult<()>)
    requires
        old(store).wf(),
    ensures
        final(store).wf(),
        final(store).users == old(store).users,
        final(store).repos == old(store).repos,
        final(store).comments == old(store).comments,
        final(store).subscriptions == old(store).subscriptions,
        r is Ok <==> has_key(old(store).posts.rows@, post.id@),
        r is Ok ==> final(store).posts.rows@ == old(store).posts.rows@.update(
            index_of(old(store).posts.rows@, post.id@),
            post_updated(old(store).post(post.id@).unwrap(), *post),
        ),
        r is Err ==> fails_with(r, ErrorKind::NotFound) && final(store).posts.rows@ == old(
            store,
        ).posts.rows@,
{
    let stored = match store.posts.get(&post.id) {
        Some(x) => x,
        None => {
            return Err(ServiceError::NotFound("post not found".to_owned()));
        },
    };
    let row = Post {
        id: stored.id,
        title: post.title.clone(),
        category: post.category.clone(),
        content: post.content.clone(),
        created_at: stored.created_at,
        updated_at: post.updated_at,
        author: stored.author,
        repo_id: post.repo_id.clone(),
    };
    store.posts.replace(row);
    Ok(())
}

/// Deletes a post for good.
pub fn erase_post(store: &mut Store, id: &String) -> (r: ServiceResult<()>)
    requires
        old(store).wf(),
    ensures
        final(store).wf(),
        final(store).users == old(store).users,
        final(store).repos == old(store).repos,
        final(store).comments == old(store).comments,
        final(store).subscriptions == old(store).subscriptions,
        r is Ok <==> has_key(old(store).posts.rows@, id@),
        r is Ok ==> final(store).posts.rows@ == old(store).posts.rows@.remove(
            index_of(old(store).posts.rows@, id@),
        ),
        r is Err ==> fails_with(r, ErrorKind::NotFound) && final(store).posts.rows@ == old(
            store,
        ).posts.rows@,
{
    if store.posts.remove(id) {
        Ok(())
    } else {
        Err(ServiceError::NotFound("post not found".to_owned()))
    }
}

/// Stores a new comment; its id must be free.
pub fn add_comment(store: &mut Store, comment: &Comment) -> (r: ServiceResult<()>)
    requires
        old(store).wf(),
    ensures
        final(store).wf(),
        final(store).users == old(store).users,
        final(store).repos == old(store).repos,
        final(store).posts == old(store).posts,
        final(store).subscriptions == old(store).subscriptions,
        r is Ok <==> !has_key(old(store).comments.rows@, comment.id@),
        r is Ok ==> final(store).comments.rows@ == old(store).comments.rows@.push(*comment),
        r is Err ==> fails_with(r, ErrorKind::Conflict) && final(store).comments.rows@
            == old(store).comments.rows@,
{
    if store.comments.insert(comment.clone()) {
        Ok(())
    } else {
        Err(ServiceError::Conflict("comment id exists".to_owned()))
    }
}

pub fn get_comment_by_id(store: &Store, id: &String) -> (r: Option<Comment>)
    requires
        store.wf(),
    ensures
        r == store.comment(id@),
{
    store.comments.get(id)
}

/// The comments on a post, in the order they were stored.
pub fn list_comments_by_post_id(store: &Store, post_id: &String) -> (r: Vec<Comment>)
    ensures
        r@ == store.comments.rows@.filter(comment_on_post(post_id@)),
{
    let rows = &store.comments.rows;
    let n = rows.len();
    let mut out: Vec<Comment> = Vec::new();
    let mut i: usize = 0;
    while i < n
        invariant
            n == rows@.len(),
            i <= n,
            out@ == rows@.subrange(0, i as int).filter(comment_on_post(post_id@)),
        decreases n - i,
    {
        if rows[i].post_id == *post_id {
            out.push(rows[i].clone());
        }
        proof {
            let p = comment_on_post(post_id@);
            reveal(Seq::filter);
            let done = rows@.subrange(0, i + 1);
            assert(done.drop_last() =~= rows@.subrange(0, i as int));
            assert(done.last() == rows@[i as int]);
            assert(done.filter(p) == (if p(done.last()) {
                done.drop_last().filter(p).push(done.last())
            } else {
                done.drop_last().filter(p)
            }));
        }
        i += 1;
    }
    proof {
        assert(rows@.subrange(0, n as int) =~= rows@);
    }
    out
}

/// Deletes a comment for good.
pub fn delete_comment_by_id(store: &mut Store, id: &String) -> (r: ServiceResult<()>)
    requires
        old(store).wf(),
    ensures
        final(store).wf(),
        final(store).users == old(store).users,
        final(store).repos == old(store).repos,
        final(store).posts == old(store).posts,
        final(store).subscriptions == old(store).subscriptions,
        r is Ok <==> has_key(old(store).comments.rows@, id@),
        r is Ok ==> final(store).comments.rows@ == old(store).comments.rows@.remove(
            index_of(old(store).comments.rows@, id@),
        ),
        r is Err ==> fails_with(r, ErrorKind::NotFound) && final(store).comments.rows@
            == old(store).comments.rows@,
{
    if store.comments.remove(id) {
        Ok(())
    } else {
        Err(ServiceError::NotFound("comment not found".to_owned()))
    }
}

/// What an edit changes of a stored comment: its content, the comment it
/// answers and its update time.
pub open spec fn comment_updated(stored: Comment, new: Comment) -> Comment {
    Comment {
        content: new.content,
        parent_id: new.parent_id,
        updated_at: new.updated_at,
        ..stored
    }
}

/// Updates content, parent and update time of a stored comment.
pub fn update_comment(store: &mut Store, comment: &Comment) -> (r: ServiceResult<()>)
    requires
        old(store).wf(),
    ensures
        final(store).wf(),
        final(store).users == old(store).users,
        final(store).repos == old(store).repos,
        final(store).posts == old(store).posts,
        final(store).subscriptions == old(store).subscriptions,
        r is Ok <==> has_key(old(store).comments.rows@, comment.id@),
        r is Ok ==> final(store).comments.rows@ == old(store).comments.rows@.update(
            index_of(old(store).comments.rows@, comment.id@),
            comment_updated(old(store).comment(comment.id@).unwrap(), *comment),
        ),
        r is Err ==> fails_with(r, ErrorKind::NotFound) && final(store).comments.rows@
            == old(store).comments.rows@,
{
    let stored = match store.comments.get(&comment.id) {
        Some(x) => x,
        None => {
            return Err(ServiceError::NotFound("comment not found".to_owned()));
        },
    };
    let row = Comment {
        id: stored.id,
        post_id: stored.post_id,
        repo_id: stored.repo_id,
        content: comment.content.clone(),
        created_at: stored.created_at,
        updated_at: comment.updated_at,
        author: stored.author,
        parent_id: crate::model::clone_opt(&comment.parent_id),
    };
    store.comments.replace(row);
    Ok(())
}

fn position_by_grant(s: &Vec<Subscription>, user_id: &String, repo_id: &String) -> (r: Option<
    usize,
>)
    ensures
        match r {
            Some(i) => i < s@.len() && grant()(s@[i as int]) == (user_id@, repo_id@),
            None => !subscribed(s@, user_id@, repo_id@),
        },
{
    let n = s.len();
    let mut i: usize = 0;
    while i < n
        invariant
            n == s@.len(),
            i <= n,
            forall|j: int| 0 <= j < i ==> #[trigger] grant()(s@[j]) != (user_id@, repo_id@),
        decreases n - i,
    {
        if s[i].user_id == *user_id && s[i].repo_id == *repo_id {
            return Some(i);
        }
        i += 1;
    }
    None
}

/// Stores a subscription; its id and its (subscriber, repo) pair must both be free.
pub fn add_subscription(store: &mut Store, sub: Subscription) -> (r: ServiceResult<()>)
    requires
        old(store).wf(),
    ensures
        final(store).wf(),
        final(store).users == old(store).users,
        final(store).repos == old(store).repos,
        final(store).posts == old(store).posts,
        final(store).comments == old(store).comments,
        r is Ok <==> (!has_key(old(store).subscriptions.rows@, sub.id@) && !old(
            store,
        ).is_subscribed(sub.user_id@, sub.repo_id@)),
        r is Ok ==> final(store).subscriptions.rows@ == old(store).subscriptions.rows@.push(sub),
        r is Err ==> fails_with(r, ErrorKind::Conflict) && final(store).subscriptions.rows@
            == old(store).subscriptions.rows@,
{
    if position_by_grant(&store.subscriptions.rows, &sub.user_id, &sub.repo_id).is_some() {
        return Err(ServiceError::Conflict("subscription exists".to_owned()));
    }
    let ghost before = store.subscriptions.rows@;
    proof {
        lemma_unique_push(before, grant(), sub);
    }
    if store.subscriptions.insert(sub) {
        Ok(())
    } else {
        Err(ServiceError::Conflict("subscription id exists".to_owned()))
    }
}

/// Subscribes a user to a repo under a fresh id. It succeeds exactly when the
/// user is not yet subscribed and the drawn id is not taken.
pub fn add_subscribe(store: &mut Store, user_id: &String, repo_id: &String) -> (r: ServiceResult<()>)
    requires
        old(store).wf(),
    ensures
        final(store).wf(),
        final(store).users == old(store).users,
        final(store).repos == old(store).repos,
        final(store).posts == old(store).posts,
        final(store).comments == old(store).comments,
        exists|id: Seq<char>|
            {
                &&& (r is Ok <==> (!old(store).is_subscribed(user_id@, repo_id@) && !has_key(
                    old(store).subscriptions.rows@,
                    id,
                )))
                &&& (r is Ok ==> final(store).subscriptions.rows@.last().id@ == id)
            },
        r is Ok ==> {
            let rows = final(store).subscriptions.rows@;
            &&& rows.len() == old(store).subscriptions.rows@.len() + 1
            &&& rows.drop_last() == old(store).subscriptions.rows@
            &&& rows.last().user_id@ == user_id@
            &&& rows.last().repo_id@ == repo_id@
        },
        r is Err ==> fails_with(r, ErrorKind::Conflict) && final(store).subscriptions.rows@
            == old(store).subscriptions.rows@,
{
    let sub = Subscription { id: new_id(), user_id: user_id.clone(), repo_id: repo_id.clone() };
    let ghost id = sub.id@;
    let r = add_subscription(store, sub);
    proof {
        if r is Ok {
            assert(final(store).subscriptions.rows@.drop_last() =~= old(store).subscriptions.rows@);
        }
    }
    r
}

/// Whether the user holds a subscription to the repo.
pub fn check_subscribe(store: &Store, user_id: &String, repo_id: &String) -> (r: bool)
    ensures
        r == store.is_subscribed(user_id@, repo_id@),
{
    position_by_grant(&store.subscriptions.rows, user_id, repo_id).is_some()
}

/// The ids of the repos that the user is subscribed to, in the order the
/// subscriptions were stored.
pub fn fetch_subscribe(store: &Store, user_id: &String) -> (r: Vec<String>)
    ensures
        r@.len() == store.subscriptions.rows@.filter(subscription_of(user_id@)).len(),
        forall|i: int|
            0 <= i < r@.len() ==> #[trigger] r@[i]@ == store.subscriptions.rows@.filter(
                subscription_of(user_id@),
            )[i].repo_id@,
{
    let rows = &store.subscriptions.rows;
    let n = rows.len();
    let mut out: Vec<String> = Vec::new();
    let ghost p = subscription_of(user_id@);
    let mut i: usize = 0;
    while i < n
        invariant
            n == rows@.len(),
            i <= n,
            p == subscription_of(user_id@),
            out@.len() == rows@.subrange(0, i as int).filter(p).len(),
            forall|j: int|
                0 <= j < out@.len() ==> #[trigger] out@[j]@ == rows@.subrange(0, i as int).filter(
                    p,
                )[j].repo_id@,
        decreases n - i,
    {
        proof {
            reveal(Seq::filter);
            let done = rows@.subrange(0, i + 1);
            assert(done.drop_last() =~= rows@.subrange(0, i as int));
            assert(done.last() == rows@[i as int]);
            assert(done.filter(p) == (if p(done.last()) {
                done.drop_last().filter(p).push(done.last())
            } else {
                done.drop_last().filter(p)
            }));
        }
        if rows[i].user_id == *user_id {
            out.push(rows[i].repo_id.clone());
        }
        i += 1;
    }
    proof {
        assert(rows@.subrange(0, n as int) =~= rows@);
    }
    out
}

/// Removes the user's subscription to the repo; there must be one.
pub fn delete_subscribe(store: &mut Store, user_id: &String, repo_id: &String) -> (r: ServiceResult<
    (),
>)
    requires
        old(store).wf(),
    ensures
        final(store).wf(),
        final(store).users == old(store).users,
        final(store).repos == old(store).repos,
        final(store).posts == old(store).posts,
        final(store).comments == old(store).comments,
        r is Ok <==> old(store).is_subscribed(user_id@, repo_id@),
        r is Ok ==> exists|i: int|
            0 <= i < old(store).subscriptions.rows@.len() && #[trigger] grant()(
                old(store).subscriptions.rows@[i],
            ) == (user_id@, repo_id@) && final(store).subscriptions.rows@ == old(
                store,
            ).subscriptions.rows@.remove(i),
        forall|u: Seq<char>, g: Seq<char>|
            #[trigger] final(store).is_subscribed(u, g) <==> (old(store).is_subscribed(u, g) && (u, g)
                != (user_id@, repo_id@)),
        r is Err ==> fails_with(r, ErrorKind::NotFound) && final(store).subscriptions.rows@
            == old(store).subscriptions.rows@,
{
    let k = match position_by_grant(&store.subscriptions.rows, user_id, repo_id) {
        Some(k) => k,
        None => {
            return Err(ServiceError::NotFound("not found subscribe info".to_owned()));
        },
    };
    let key = store.subscriptions.rows[k].id.clone();
    let ghost before = store.subscriptions.rows@;
    proof {
        crate::table::lemma_lookup_at(before, k as int);
        lemma_unique_remove(before, grant(), k as int);
    }
    store.subscriptions.remove(&key);
    proof {
        assert forall|u: Seq<char>, g: Seq<char>|
            #[trigger] final(store).is_subscribed(u, g) <==> (old(store).is_subscribed(u, g) && (u, g)
                != (user_id@, repo_id@)) by {
            assert(taken_by(before.remove(k as int), grant(), (u, g)) <==> (taken_by(before, grant(), (u, g)) && (u, g) != grant()(before[k as int])));
        }
    }
    Ok(())
}

fn position_by_user_name(s: &Vec<User>, name: &String) -> (r: Option<usize>)
    ensures
        match r {
            Some(i) => i < s@.len() && s@[i as int].name@ == name@,
            None => !taken_by(s@, user_name(), name@),
        },
{
    let n = s.len();
    let mut i: usize = 0;
    while i < n
        invariant
            n == s@.len(),
            i <= n,
            forall|j: int| 0 <= j < i ==> #[trigger] s@[j].name@ != name@,
        decreases n - i,
    {
        if s[i].name == *name {
            return Some(i);
        }
        i += 1;
    }
    proof {
        assert forall|j: int| 0 <= j < s@.len() implies #[trigger] user_name()(s@[j]) != name@ by {
            assert(s@[j].name@ != name@);
        }
    }
    None
}

/// Stores a new user; its id and its name must both be free.
pub fn add_user(store: &mut Store, user: &User) -> (r: ServiceResult<()>)
    requires
        old(store).wf(),
    ensures
        final(store).wf(),
        final(store).repos == old(store).repos,
        final(store).posts == old(store).posts,
        final(store).comments == old(store).comments,
        final(store).subscriptions == old(store).subscriptions,
        r is Ok <==> (!has_key(old(store).users.rows@, user.id@) && !taken_by(
            old(store).users.rows@,
            user_name(),
            user.name@,
        )),
        r is Ok ==> final(store).users.rows@ == old(store).users.rows@.push(*user),
        r is Err ==> fails_with(r, ErrorKind::Conflict) && final(store).users.rows@ == old(
            store,
        ).users.rows@,
{
    if let Some(i) = position_by_user_name(&store.users.rows, &user.name) {
        proof {
            assert(user_name()(store.users.rows@[i as int]) == user.name@);
        }
        return Err(ServiceError::Conflict("user name exists".to_owned()));
    }
    let ghost before = store.users.rows@;
    if store.users.insert(user.clone()) {
        proof {
            lemma_unique_push(before, user_name(), *user);
        }
        Ok(())
    } else {
        Err(ServiceError::Conflict("user id exists".to_owned()))
    }
}

/// No user but `id` holds `name`.
pub open spec fn user_name_free_for(s: Seq<User>, name: Seq<char>, id: Seq<char>) -> bool {
    forall|j: int| 0 <= j < s.len() && #[trigger] s[j].name@ == name ==> s[j].id@ == id
}

/// What a profile update keeps of a stored user: id and creation time.
pub open spec fn user_updated(stored: User, new: User) -> User {
    User {
        id: stored.id,
        name: new.name,
        created_at: stored.created_at,
        updated_at: new.updated_at,
        password: new.password,
        avatar_url: new.avatar_url,
    }
}

/// Updates name, update time, password and avatar of a stored user.
pub fn update_exist_user(store: &mut Store, user: &User) -> (r: ServiceResult<()>)
    requires
        old(store).wf(),
    ensures
        final(store).wf(),
        final(store).repos == old(store).repos,
        final(store).posts == old(store).posts,
        final(store).comments == old(store).comments,
        final(store).subscriptions == old(store).subscriptions,
        r is Ok <==> (has_key(old(store).users.rows@, user.id@) && user_name_free_for(
            old(store).users.rows@,
            user.name@,
            user.id@,
        )),
        r is Ok ==> final(store).users.rows@ == old(store).users.rows@.update(
            index_of(old(store).users.rows@, user.id@),
            user_updated(old(store).user(user.id@).unwrap(), *user),
        ),
        r is Err ==> final(store).users.rows@ == old(store).users.rows@,
        !has_key(old(store).users.rows@, user.id@) ==> fails_with(r, ErrorKind::NotFound),
        has_key(old(store).users.rows@, user.id@) && r is Err ==> fails_with(r, ErrorKind::Conflict),
{
    let stored = match store.users.get(&user.id) {
        Some(x) => x,
        None => {
            return Err(ServiceError::NotFound("user not found".to_owned()));
        },
    };
    let ghost before = store.users.rows@;
    let ghost i = index_of(before, user.id@);
    proof {
        crate::table::lemma_lookup_at(before, i);
    }
    let found = position_by_user_name(&store.users.rows, &user.name);
    if let Some(k) = found {
        if store.users.rows[k].id != user.id {
            proof {
                assert(before[k as int].name@ == user.name@);
            }
            return Err(ServiceError::Conflict("user name exists".to_owned()));
        }
    }
    let row = User {
        id: stored.id,
        name: user.name.clone(),
        created_at: stored.created_at,
        updated_at: user.updated_at,
        password: user.password.clone(),
        avatar_url: crate::model::clone_opt(&user.avatar_url),
    };
    proof {
        assert forall|j: int| 0 <= j < before.len() && #[trigger] before[j].name@ == user.name@
            implies before[j].id@ == user.id@ by {
            let k = found->Some_0 as int;
            assert(user_name()(before[j]) == user.name@);
            assert(user_name()(before[j]) == user_name()(before[k]));
        }
        assert forall|j: int| 0 <= j < before.len() && j != i implies #[trigger] user_name()(
            before[j],
        ) != user_name()(row) by {
            if before[j].name@ == user.name@ {
                assert(before[j].id@ == user.id@);
                assert(before[j].key_of() == before[i].key_of());
            }
        }
        lemma_unique_update(before, user_name(), i, row);
    }
    store.users.replace(row);
    Ok(())
}

pub fn get_user_by_id(store: &Store, id: &String) -> (r: Option<User>)
    requires
        store.wf(),
    ensures
        r == store.user(id@),
{
    store.users.get(id)
}

/// The user with the given name, if any; names are unique.
pub fn get_user_by_name(store: &Store, name: &String) -> (r: Option<User>)
    requires
        store.wf(),
    ensures
        r == store.user_named(name@),
{
    match position_by_user_name(&store.users.rows, name) {
        Some(i) => {
            proof {
                let rows = store.users.rows@;
                assert(user_name()(rows[i as int]) == name@);
                let j = choose|j: int| 0 <= j < rows.len() && #[trigger] user_name()(rows[j]) == name@;
                assert(user_name()(rows[j]) == user_name()(rows[i as int]));
            }
            Some(store.users.rows[i].clone())
        },
        None => None,
    }
}

} // verus!
