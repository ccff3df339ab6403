//! Registering and deleting accounts.

use crate::access::{
    admin_only, authenticate, authenticated, authorize_user_delete, invited, issue_access_key,
    lemma_random_text_exists, parse_target, random_text, require_admin, target_id, user_deletion,
};
use crate::ident::uuid_reading;
use crate::keys::ACCESS_KEY_LEN;
use crate::messages::USER_DELETED;
use crate::model::{result_view, Config, Error, ErrorView, Outcome, Response};
use crate::store::{Store, StoreView};
use vstd::prelude::*;
use vstd::string::*;

verus! {

/// The body of a registration: the name of the new account and the invite
/// key.
#[derive(Clone, Debug, PartialEq, Eq)]
pub struct UserRegisterData {
    pub username: String,
    pub key: String,
}

/// What a registration does to the store and what it replies, given the
/// access key that was drawn: only the configured invite key opens the door,
/// the new account is never an admin, and the reply is its access key.
pub open spec fn register_user_spec(
    s: StoreView,
    invite_key: Seq<char>,
    username: Seq<char>,
    key: Seq<char>,
    access_key: Seq<char>,
) -> (StoreView, Outcome) {
    match invited(invite_key, key) {
        Err(e) => (s, Err(e)),
        Ok(()) => match s.create_user(username, access_key).1 {
            Ok(_) => (s.create_user(username, access_key).0, Ok(access_key)),
            Err(e) => (s, Err(e)),
        },
    }
}

/// Registers an account and replies with its access key, which is shown this
/// once.
pub fn register_user(store: &mut Store, config: &Config, data: UserRegisterData) -> (r: Result<
    Response,
    Error,
>)
    requires
        old(store).wf(),
    ensures
        final(store).wf(),
        exists|access_key: Seq<char>|
            random_text(access_key, ACCESS_KEY_LEN as nat) && (final(store)@, result_view(r))
                == #[trigger] register_user_spec(
                old(store)@,
                config.invite_key@,
                data.username@,
                data.key@,
                access_key,
            ),
{
    let access_key = match issue_access_key(config, data.key.as_str()) {
        Ok(access_key) => access_key,
        Err(e) => {
            proof {
                let any = lemma_random_text_exists(ACCESS_KEY_LEN as nat);
                assert((store@, Err::<Seq<char>, ErrorView>(e@)) == register_user_spec(
                    old(store)@,
                    config.invite_key@,
                    data.username@,
                    data.key@,
                    any,
                ));
            }
            return Err(e);
        },
    };
    let created = store.create_user(data.username, access_key.clone());
    let r = match created {
        Ok(_) => Ok(Response { msg: access_key }),
        Err(e) => Err(e),
    };
    proof {
        assert((store@, result_view(r)) == register_user_spec(
            old(store)@,
            config.invite_key@,
            data.username@,
            data.key@,
            access_key@,
        ));
    }
    r
}

/// What an admin's deletion of an account by id does to the store and what
/// it replies: the requester must hold a key and be an admin, the id must
/// read as a UUID, and the account must exist and be no admin. Then the
/// account goes, and its files with it.
pub open spec fn delete_user_by_id_spec(s: StoreView, userid: Seq<char>, token: Seq<char>) -> (
    StoreView,
    Outcome,
) {
    match authenticated(s.holder_of(token)) {
        Err(e) => (s, Err(e)),
        Ok(requester) => match admin_only(requester) {
            Err(e) => (s, Err(e)),
            Ok(()) => match target_id(uuid_reading(userid)) {
                Err(e) => (s, Err(e)),
                Ok(id) => match user_deletion(s.user(id)) {
                    Err(e) => (s, Err(e)),
                    Ok(target) => (s.purged(target), Ok(USER_DELETED@)),
                },
            },
        },
    }
}

/// Deletes the account with the id `userid`, and its files, for an admin who
/// holds `token`.
pub fn delete_user_by_id(store: &mut Store, userid: &str, token: &str) -> (r: Result<
    Response,
    Error,
>)
    requires
        old(store).wf(),
    ensures
        final(store).wf(),
        (final(store)@, result_view(r)) == delete_user_by_id_spec(old(store)@, userid@, token@),
{
    let requester = match authenticate(store.resolve(token)) {
        Ok(user) => user,
        Err(e) => {
            return Err(e);
        },
    };
    match require_admin(&requester) {
        Ok(()) => {},
        Err(e) => {
            return Err(e);
        },
    }
    let id = match parse_target(userid) {
        Ok(id) => id,
        Err(e) => {
            return Err(e);
        },
    };
    let found = store.find_user(id);
    match authorize_user_delete(&found) {
        Ok(target) => {
            store.purge_user(target);
            Ok(Response { msg: String::from_str(USER_DELETED) })
        },
        Err(e) => Err(e),
    }
}

/// What the deletion of one's own account does to the store and what it
/// replies: whoever holds a key may go, admin or not, and their files go
/// with them.
pub open spec fn delete_user_self_spec(s: StoreView, token: Seq<char>) -> (StoreView, Outcome) {
    match authenticated(s.holder_of(token)) {
        Err(e) => (s, Err(e)),
        Ok(user) => (s.purged(user.id), Ok(USER_DELETED@)),
    }
}

/// Deletes the account of the holder of `token`, and its files.
pub fn delete_user_self(store: &mut Store, token: &str) -> (r: Result<Response, Error>)
    requires
        old(store).wf(),
    ensures
        final(store).wf(),
        (final(store)@, result_view(r)) == delete_user_self_spec(old(store)@, token@),
{
    let user = match authenticate(store.resolve(token)) {
        Ok(user) => user,
        Err(e) => {
            return Err(e);
        },
    };
    store.purge_user(user.id);
    Ok(Response { msg: String::from_str(USER_DELETED) })
}

} // verus!
