//! Subscribing to a repo through its share link, and leaving it again.

use vstd::prelude::*;

use crate::access::{can_read, can_write, visible};
use crate::error::{fails_with, ErrorKind, ServiceError, ServiceResult};
use crate::fresh::new_id;
use crate::link::{decode, is_link_of, lemma_decode_of, link_with, no_sep, parse_link, valid_id};
use crate::model::{Repo, Subscription};
use crate::store::{
    add_subscription, check_subscribe, delete_subscribe, fetch_subscribe, get_repo_by_id, grant,
    live, subscription_of, Store,
};
use crate::table::has_key;

verus! {

/// The repo that a decoded link names, if it is visible and owned by the
/// user the link names.
pub open spec fn linked_repo(store: Store, owner: Seq<char>, repo_id: Seq<char>) -> Option<Repo> {
    match live(store.repo(repo_id)) {
        Some(repo) => if repo.owner@ == owner {
            Some(repo)
        } else {
            None
        },
        None => None,
    }
}

/// What subscribing `caller` through `link` does, with `id` as the id of a new
/// subscription.
pub open spec fn subscribe_done(
    old: Store,
    new: Store,
    link: Seq<char>,
    caller: Seq<char>,
    id: Seq<char>,
    r: ServiceResult<Repo>,
) -> bool {
    let d = decode(link);
    &&& new.users == old.users
    &&& new.repos == old.repos
    &&& new.posts == old.posts
    &&& new.comments == old.comments
    &&& r is Err ==> new.subscriptions.rows@ == old.subscriptions.rows@
    &&& d is None ==> fails_with(r, ErrorKind::BadRequest)
    &&& d is Some && d->Some_0.0 == caller ==> fails_with(r, ErrorKind::BadRequest)
    &&& d is Some && d->Some_0.0 != caller ==> match linked_repo(old, d->Some_0.0, d->Some_0.1) {
        None => fails_with(r, ErrorKind::NotFound),
        Some(repo) => if old.is_subscribed(caller, d->Some_0.1) {
            r == Ok::<Repo, ServiceError>(repo) && new.subscriptions == old.subscriptions
        } else if !has_key(old.subscriptions.rows@, id) {
            &&& r == Ok::<Repo, ServiceError>(repo)
            &&& new.subscriptions.rows@.len() == old.subscriptions.rows@.len() + 1
            &&& new.subscriptions.rows@.drop_last() == old.subscriptions.rows@
            &&& new.subscriptions.rows@.last().id@ == id
            &&& grant()(new.subscriptions.rows@.last()) == (caller, d->Some_0.1)
        } else {
            fails_with(r, ErrorKind::Conflict)
        },
    }
}

/// Subscribes the caller to the repo that a share link names, under the
/// subscription id `id`. Subscribing to one's own repo is a bad request; a
/// link whose repo is hidden or owned by someone else than it says is not
/// found; subscribing twice changes nothing.
pub fn new_subscribe_with_id(
    store: &mut Store,
    link: &String,
    current_user_id: &String,
    id: String,
) -> (r: ServiceResult<Repo>)
    requires
        old(store).wf(),
    ensures
        final(store).wf(),
        subscribe_done(*old(store), *final(store), link@, current_user_id@, id@, r),
{
    let (user_id, repo_id) = parse_link(link)?;
    if *current_user_id == user_id {
        return Err(ServiceError::BadRequest("should not subscribe self".to_owned()));
    }
    let repo = match get_repo_by_id(store, &repo_id) {
        Some(repo) => repo,
        None => {
            return Err(ServiceError::NotFound("repo not found".to_owned()));
        },
    };
    if repo.owner != user_id {
        return Err(ServiceError::NotFound("repo not found".to_owned()));
    }
    if !check_subscribe(store, current_user_id, &repo_id) {
        let sub = Subscription { id, user_id: current_user_id.clone(), repo_id };
        add_subscription(store, sub)?;
        proof {
            assert(final(store).subscriptions.rows@.drop_last() =~= old(store).subscriptions.rows@);
        }
    }
    Ok(repo)
}

/// [`new_subscribe_with_id`] under a fresh subscription id.
pub fn new_subscribe(store: &mut Store, link: &String, current_user_id: &String) -> (r:
    ServiceResult<Repo>)
    requires
        old(store).wf(),
    ensures
        final(store).wf(),
        exists|id: Seq<char>|
            subscribe_done(*old(store), *final(store), link@, current_user_id@, id, r),
{
    let id = new_id();
    let ghost id0 = id@;
    let r = new_subscribe_with_id(store, link, current_user_id, id);
    proof {
        assert(subscribe_done(*old(store), *final(store), link@, current_user_id@, id0, r));
    }
    r
}

/// The repo ids of the caller's subscriptions, in the order they were stored.
pub open spec fn subscribed_ids(store: Store, user_id: Seq<char>) -> Seq<Seq<char>> {
    store.subscriptions.rows@.filter(subscription_of(user_id)).map_values(
        |s: Subscription| s.repo_id@,
    )
}

/// The visible repo with the given id, if any.
pub open spec fn visible_repo(store: Store) -> spec_fn(Seq<char>) -> Option<Repo> {
    |id: Seq<char>| live(store.repo(id))
}

/// The visible repos that the caller is subscribed to.
pub fn list_subscribe(store: &Store, current_user_id: &String) -> (r: Vec<Repo>)
    requires
        store.wf(),
    ensures
        r@ == subscribed_ids(*store, current_user_id@).filter_map(visible_repo(*store)),
{
    let ids = fetch_subscribe(store, current_user_id);
    let ghost all = subscribed_ids(*store, current_user_id@);
    let ghost f = visible_repo(*store);
    let n = ids.len();
    let mut out: Vec<Repo> = Vec::new();
    let mut i: usize = 0;
    while i < n
        invariant
            n == ids@.len(),
            n == all.len(),
            i <= n,
            all == subscribed_ids(*store, current_user_id@),
            f == visible_repo(*store),
            store.wf(),
            forall|j: int| 0 <= j < n ==> #[trigger] ids@[j]@ == all[j],
            out@ == all.subrange(0, i as int).filter_map(f),
        decreases n - i,
    {
        let found = get_repo_by_id(store, &ids[i]);
        proof {
            let done = all.subrange(0, i + 1);
            assert(done.drop_last() =~= all.subrange(0, i as int));
            assert(done.last() == all[i as int]);
            assert(f(all[i as int]) == found);
        }
        if let Some(repo) = found {
            out.push(repo);
        }
        i += 1;
    }
    proof {
        assert(all.subrange(0, n as int) =~= all);
    }
    out
}

/// Ends the caller's subscription to a repo; there must be one.
pub fn remove_subscribe(store: &mut Store, repo_id: &String, current_user_id: &String) -> (r:
    ServiceResult<()>)
    requires
        old(store).wf(),
    ensures
        final(store).wf(),
        final(store).users == old(store).users,
        final(store).repos == old(store).repos,
        final(store).posts == old(store).posts,
        final(store).comments == old(store).comments,
        r is Ok <==> old(store).is_subscribed(current_user_id@, repo_id@),
        r is Err ==> fails_with(r, ErrorKind::NotFound) && final(store).subscriptions.rows@ == old(
            store,
        ).subscriptions.rows@,
        !final(store).is_subscribed(current_user_id@, repo_id@),
        forall|u: Seq<char>, g: Seq<char>|
            (u, g) != (current_user_id@, repo_id@) ==> (#[trigger] final(store).is_subscribed(u, g)
                <==> old(store).is_subscribed(u, g)),
{
    delete_subscribe(store, current_user_id, repo_id)
}

/// A successful subscription grants read access to the repo that the link
/// names.
pub proof fn lemma_subscribe_grants_read(
    old: Store,
    new: Store,
    link: Seq<char>,
    caller: Seq<char>,
    id: Seq<char>,
    r: ServiceResult<Repo>,
)
    requires
        subscribe_done(old, new, link, caller, id, r),
        r is Ok,
    ensures
        decode(link) is Some,
        can_read(new, decode(link)->Some_0.1, caller),
{
    let g = decode(link)->Some_0.1;
    assert(visible(new, g));
    if !old.is_subscribed(caller, g) {
        let rows = new.subscriptions.rows@;
        assert(grant()(rows[rows.len() - 1]) == (caller, g));
    }
}

/// Once a caller holds no subscription to a repo they do not own, they cannot
/// read it.
pub proof fn lemma_unsubscribed_cannot_read(store: Store, repo_id: Seq<char>, caller: Seq<char>)
    requires
        !store.is_subscribed(caller, repo_id),
        !can_write(store, repo_id, caller),
    ensures
        !can_read(store, repo_id, caller),
{
}

/// Subscribing to one's own repo is refused as a bad request and stores
/// nothing, whatever the scheme of the link.
pub proof fn lemma_self_subscription_refused(
    old: Store,
    new: Store,
    scheme: Seq<char>,
    owner: Seq<char>,
    repo_id: Seq<char>,
    id: Seq<char>,
    r: ServiceResult<Repo>,
)
    requires
        no_sep(scheme),
        valid_id(owner),
        valid_id(repo_id),
        subscribe_done(old, new, link_with(scheme, owner, repo_id), owner, id, r),
    ensures
        fails_with(r, ErrorKind::BadRequest),
        new.subscriptions.rows@ == old.subscriptions.rows@,
{
    let link = link_with(scheme, owner, repo_id);
    assert(is_link_of(link, owner, repo_id));
    lemma_decode_of(link, owner, repo_id);
}

/// Subscribing through a share link to a visible repo of the user it names,
/// by a caller who is not yet subscribed and under an unused subscription id,
/// succeeds with that repo and adds exactly one subscription, of the caller to
/// that repo; nothing else changes.
pub proof fn lemma_subscribe_by_link(
    old: Store,
    new: Store,
    scheme: Seq<char>,
    owner: Seq<char>,
    repo_id: Seq<char>,
    caller: Seq<char>,
    id: Seq<char>,
    r: ServiceResult<Repo>,
)
    requires
        no_sep(scheme),
        valid_id(owner),
        valid_id(repo_id),
        caller != owner,
        linked_repo(old, owner, repo_id) is Some,
        !old.is_subscribed(caller, repo_id),
        !has_key(old.subscriptions.rows@, id),
        subscribe_done(old, new, link_with(scheme, owner, repo_id), caller, id, r),
    ensures
        r == Ok::<Repo, ServiceError>(linked_repo(old, owner, repo_id)->Some_0),
        new.subscriptions.rows@ == old.subscriptions.rows@.push(new.subscriptions.rows@.last()),
        grant()(new.subscriptions.rows@.last()) == (caller, repo_id),
        new.subscriptions.rows@.last().id@ == id,
        new.users == old.users,
        new.repos == old.repos,
        new.posts == old.posts,
        new.comments == old.comments,
{
    let link = link_with(scheme, owner, repo_id);
    assert(is_link_of(link, owner, repo_id));
    lemma_decode_of(link, owner, repo_id);
    let rows = new.subscriptions.rows@;
    assert(rows =~= rows.drop_last().push(rows.last()));
}

} // verus!
