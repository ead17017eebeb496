//! Who may read and who may write a repository and what it contains.

use vstd::prelude::*;

use crate::error::{fails_with, ErrorKind, ServiceError, ServiceResult};
use crate::model::RepoStatus;
use crate::store::{check_subscribe, get_repo_by_id, live, live_owned_by, Store};

verus! {

/// The repo exists and is not soft-deleted.
pub open spec fn visible(store: Store, repo_id: Seq<char>) -> bool {
    live(store.repo(repo_id)) is Some
}

/// Write access: only the owner of a visible repo has it.
pub open spec fn can_write(store: Store, repo_id: Seq<char>, caller: Seq<char>) -> bool {
    visible(store, repo_id) && live(store.repo(repo_id))->Some_0.owner@ == caller
}

/// Read access: the owner, or a subscriber of a visible repo.
pub open spec fn can_read(store: Store, repo_id: Seq<char>, caller: Seq<char>) -> bool {
    can_write(store, repo_id, caller) || (visible(store, repo_id) && store.is_subscribed(
        caller,
        repo_id,
    ))
}

/// The refusal that a caller without access gets: an invisible repo is not
/// found, a visible one is forbidden.
pub open spec fn denial(store: Store, repo_id: Seq<char>) -> ErrorKind {
    if visible(store, repo_id) {
        ErrorKind::Forbidden
    } else {
        ErrorKind::NotFound
    }
}

/// Authorizes a write on a repo: it must be visible and owned by the caller.
pub fn check_repo_owner(store: &Store, repo_id: &String, current_user_id: &String) -> (r:
    ServiceResult<()>)
    requires
        store.wf(),
    ensures
        r is Ok <==> can_write(*store, repo_id@, current_user_id@),
        r is Err ==> fails_with(r, denial(*store, repo_id@)),
{
    let repo = match get_repo_by_id(store, repo_id) {
        Some(repo) => repo,
        None => {
            return Err(ServiceError::NotFound("repo not found".to_owned()));
        },
    };
    if repo.owner != *current_user_id {
        return Err(ServiceError::Forbidden("forbidden".to_owned()));
    }
    Ok(())
}

/// Authorizes a read on a repo: a subscriber is let in first; anyone else
/// goes through the ownership check and gets its refusal, so that "not
/// subscribed" and "not found" look alike wherever the repo is hidden.
pub fn check_owner_or_subscribe(store: &Store, repo_id: &String, current_user_id: &String) -> (r:
    ServiceResult<()>)
    requires
        store.wf(),
    ensures
        r is Ok <==> can_read(*store, repo_id@, current_user_id@),
        r is Err ==> fails_with(r, denial(*store, repo_id@)),
{
    if check_subscribe(store, current_user_id, repo_id) && get_repo_by_id(store, repo_id).is_some() {
        return Ok(());
    }
    check_repo_owner(store, repo_id, current_user_id)
}

/// The owner of a visible repo may write to it, and nobody else may: any other
/// caller is refused as forbidden.
pub proof fn lemma_owner_alone_writes(store: Store, repo_id: Seq<char>, other: Seq<char>)
    requires
        visible(store, repo_id),
        other != live(store.repo(repo_id))->Some_0.owner@,
    ensures
        can_write(store, repo_id, live(store.repo(repo_id))->Some_0.owner@),
        !can_write(store, repo_id, other),
        denial(store, repo_id) == ErrorKind::Forbidden,
{
}

/// A subscriber of a visible repo may read it, whoever owns it.
pub proof fn lemma_subscriber_reads(store: Store, repo_id: Seq<char>, subscriber: Seq<char>)
    requires
        visible(store, repo_id),
        store.is_subscribed(subscriber, repo_id),
    ensures
        can_read(store, repo_id, subscriber),
{
}

/// Write access never comes from a subscription: whoever may write owns the repo.
pub proof fn lemma_write_needs_ownership(store: Store, repo_id: Seq<char>, caller: Seq<char>)
    requires
        can_write(store, repo_id, caller),
    ensures
        store.repo(repo_id) is Some,
        store.repo(repo_id)->Some_0.owner@ == caller,
{
}

/// A soft-deleted repo is hidden: lookups treat it as absent, its owner's
/// listing leaves it out, and every read or write on it is refused as not
/// found, for every caller.
pub proof fn lemma_deleted_repo_hidden(store: Store, repo_id: Seq<char>, caller: Seq<char>)
    requires
        store.repo(repo_id) is Some,
        store.repo(repo_id)->Some_0.status == RepoStatus::Deleted,
    ensures
        live(store.repo(repo_id)) is None,
        !can_read(store, repo_id, caller),
        !can_write(store, repo_id, caller),
        denial(store, repo_id) == ErrorKind::NotFound,
        forall|owner: Seq<char>|
            !#[trigger] store.repos.rows@.filter(live_owned_by(owner)).contains(
                store.repo(repo_id)->Some_0,
            ),
{
    let repo = store.repo(repo_id)->Some_0;
    assert forall|owner: Seq<char>|
        !#[trigger] store.repos.rows@.filter(live_owned_by(owner)).contains(repo) by {
        let listed = store.repos.rows@.filter(live_owned_by(owner));
        if listed.contains(repo) {
            let i = choose|i: int| 0 <= i < listed.len() && listed[i] == repo;
            store.repos.rows@.lemma_filter_pred(live_owned_by(owner), i);
        }
    }
}

} // verus!
