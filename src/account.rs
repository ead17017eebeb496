//! Identity and credential checks, login-or-register and profile updates.

use vstd::prelude::*;

use crate::error::{fails_with, ErrorKind, ServiceError, ServiceResult};
use crate::fresh::{new_id, now};
use crate::model::{
    OpenApiGetUserResponse, OpenApiNewUserRequest, OpenApiUpdateUserRequest,
    OpenApiValidateUserResponse, Timestamp, User,
};
use crate::store::{
    add_user, get_user_by_id, get_user_by_name, update_exist_user, user_name, user_updated, Store,
};
use crate::table::{has_key, index_of, taken_by};

verus! {

/// The id of the user with this name and password, if there is one.
pub open spec fn authenticated(store: Store, name: Seq<char>, password: Seq<char>) -> Option<
    String,
> {
    match store.user_named(name) {
        Some(u) => if u.password@ == password {
            Some(u.id)
        } else {
            None
        },
        None => None,
    }
}

/// Checks a user name and password pair against the stored users.
pub struct UserValidator;

impl UserValidator {
    /// The caller's user id when the credentials match a stored user.
    pub fn validate(&self, store: &Store, username: &String, password: &String) -> (r: Option<
        String,
    >)
        requires
            store.wf(),
        ensures
            r == authenticated(*store, username@, password@),
    {
        match get_user_by_name(store, username) {
            Some(user) => if user.password == *password {
                Some(user.id)
            } else {
                None
            },
            None => None,
        }
    }
}

/// Whether a user name is taken.
pub fn validate_user_name(store: &Store, name: &String) -> (r: OpenApiValidateUserResponse)
    requires
        store.wf(),
    ensures
        r.exist == taken_by(store.users.rows@, user_name(), name@),
{
    OpenApiValidateUserResponse { exist: get_user_by_name(store, name).is_some() }
}

/// What logging in or registering does, with `id` as the id of a new user
/// and `now` as the current time.
pub open spec fn login_done(
    old: Store,
    new: Store,
    req: OpenApiNewUserRequest,
    id: String,
    now: Timestamp,
    r: ServiceResult<(OpenApiGetUserResponse, bool)>,
) -> bool {
    &&& new.repos == old.repos
    &&& new.posts == old.posts
    &&& new.comments == old.comments
    &&& new.subscriptions == old.subscriptions
    &&& r is Err ==> new.users.rows@ == old.users.rows@
    &&& match old.user_named(req.name@) {
        Some(u) => if u.password@ == req.password@ {
            r == Ok::<(OpenApiGetUserResponse, bool), ServiceError>(
                (OpenApiGetUserResponse::of_user(u), false),
            ) && new.users.rows@ == old.users.rows@
        } else {
            fails_with(r, ErrorKind::Unauthorized)
        },
        None => if !has_key(old.users.rows@, id@) {
            let user = User::with_id_spec(id, req.name, req.password, now);
            r == Ok::<(OpenApiGetUserResponse, bool), ServiceError>(
                (OpenApiGetUserResponse::of_user(user), true),
            ) && new.users.rows@ == old.users.rows@.push(user)
        } else {
            fails_with(r, ErrorKind::Conflict)
        },
    }
}

/// Logs a user in, or registers a new one under `id` at `now` if the name is
/// free. The flag of the result tells whether the user was created. A wrong
/// password for a taken name is unauthorized.
pub fn validate_login_at(
    store: &mut Store,
    req: OpenApiNewUserRequest,
    id: String,
    now: Timestamp,
) -> (r: ServiceResult<(OpenApiGetUserResponse, bool)>)
    requires
        old(store).wf(),
    ensures
        final(store).wf(),
        login_done(*old(store), *final(store), req, id, now, r),
{
    match get_user_by_name(store, &req.name) {
        Some(user) => {
            if req.password == user.password {
                Ok((OpenApiGetUserResponse::from_user(user), false))
            } else {
                Err(ServiceError::Unauthorized("password not correct".to_owned()))
            }
        },
        None => {
            let user = User::with_id(id, req.name, req.password, now);
            add_user(store, &user)?;
            Ok((OpenApiGetUserResponse::from_user(user), true))
        },
    }
}

/// [`validate_login_at`] with a fresh id and the current time.
pub fn validate_login(store: &mut Store, req: OpenApiNewUserRequest) -> (r: ServiceResult<
    (OpenApiGetUserResponse, bool),
>)
    requires
        old(store).wf(),
    ensures
        final(store).wf(),
        exists|id: String, t: Timestamp| login_done(*old(store), *final(store), req, id, t, r),
{
    let t = now();
    let id = new_id();
    let ghost id0 = id;
    let ghost req0 = req;
    let r = validate_login_at(store, req, id, t);
    proof {
        assert(login_done(*old(store), *final(store), req0, id0, t, r));
    }
    r
}

/// What a profile update does at time `now`.
pub open spec fn update_user_done(
    old: Store,
    new: Store,
    id: Seq<char>,
    req: OpenApiUpdateUserRequest,
    now: Timestamp,
    r: ServiceResult<()>,
) -> bool {
    let rows = old.users.rows@;
    &&& new.repos == old.repos
    &&& new.posts == old.posts
    &&& new.comments == old.comments
    &&& new.subscriptions == old.subscriptions
    &&& r is Err ==> new.users.rows@ == rows
    &&& !has_key(rows, id) ==> fails_with(r, ErrorKind::NotFound)
    &&& has_key(rows, id) && taken_by(rows, user_name(), req.name@) ==> fails_with(
        r,
        ErrorKind::Conflict,
    )
    &&& has_key(rows, id) && !taken_by(rows, user_name(), req.name@) ==> r is Ok
        && new.users.rows@ == rows.update(
        index_of(rows, id),
        User {
            name: req.name,
            updated_at: now,
            password: req.password,
            avatar_url: req.avatar_url,
            ..old.user(id)->Some_0
        },
    )
}

/// Updates a user's profile at `now`. The new name must not be taken by any
/// user, the one updated included.
pub fn update_user_at(
    store: &mut Store,
    id: &String,
    req: OpenApiUpdateUserRequest,
    now: Timestamp,
) -> (r: ServiceResult<()>)
    requires
        old(store).wf(),
    ensures
        final(store).wf(),
        update_user_done(*old(store), *final(store), id@, req, now, r),
{
    let user = match get_user_by_id(store, id) {
        Some(u) => u,
        None => {
            return Err(ServiceError::NotFound("user not found".to_owned()));
        },
    };
    if get_user_by_name(store, &req.name).is_some() {
        return Err(ServiceError::Conflict("name exists".to_owned()));
    }
    let ghost stored = user;
    proof {
        let rows = store.users.rows@;
        assert forall|j: int| 0 <= j < rows.len() && #[trigger] rows[j].name@ == req.name@ implies rows[
            j].id@ == id@ by {
            assert(user_name()(rows[j]) == req.name@);
        }
    }
    let updated = User {
        id: user.id,
        name: req.name,
        created_at: user.created_at,
        updated_at: now,
        password: req.password,
        avatar_url: req.avatar_url,
    };
    proof {
        assert(user_updated(stored, updated) == User {
            name: updated.name,
            updated_at: now,
            password: updated.password,
            avatar_url: updated.avatar_url,
            ..stored
        });
    }
    update_exist_user(store, &updated)
}

/// [`update_user_at`] at the current time.
pub fn update_user(store: &mut Store, id: &String, req: OpenApiUpdateUserRequest) -> (r:
    ServiceResult<()>)
    requires
        old(store).wf(),
    ensures
        final(store).wf(),
        exists|t: Timestamp| update_user_done(*old(store), *final(store), id@, req, t, r),
{
    let t = now();
    let ghost req0 = req;
    let r = update_user_at(store, id, req, t);
    proof {
        assert(update_user_done(*old(store), *final(store), id@, req0, t, r));
    }
    r
}

/// What a lookup by name shows of a user.
pub fn get_user(store: &Store, name: &String) -> (r: ServiceResult<OpenApiGetUserResponse>)
    requires
        store.wf(),
    ensures
        match store.user_named(name@) {
            Some(u) => r == Ok::<OpenApiGetUserResponse, ServiceError>(
                OpenApiGetUserResponse::of_user(u),
            ),
            None => fails_with(r, ErrorKind::NotFound),
        },
{
    match get_user_by_name(store, name) {
        Some(user) => Ok(OpenApiGetUserResponse::from_user(user)),
        None => Err(ServiceError::NotFound("user not found".to_owned())),
    }
}

} // verus!
