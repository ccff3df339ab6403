//! What holds of the service as a whole, proved from the models of its
//! operations.

use crate::access::{authenticated, file_name_of, file_of, planned_upload};
use crate::endpoints::media::{delete_image_spec, get_image_spec, upload_spec};
use crate::endpoints::user::{delete_user_by_id_spec, delete_user_self_spec, register_user_spec};
use crate::ident::uuid_reading;
use crate::messages::{
    FILE_NAME_TAKEN, INVALID_INVITE_KEY, NOT_OWNER, TARGET_IS_ADMIN, UNKNOWN_FILE_TYPE,
    USER_DELETED,
};
use crate::model::{DownloadView, ErrorView, FormField, UserId};
use crate::sniff::sniffed_kind;
use crate::store::StoreView;
use vstd::prelude::*;

verus! {

/// A file that was stored comes back as it went in: its name is the random
/// part, a dot and the extension of the type detected from its bytes, and
/// fetching that name hands out the same bytes with the detected MIME type.
pub proof fn lemma_upload_round_trip(
    s: StoreView,
    token: Seq<char>,
    fields: Seq<FormField>,
    base: Seq<char>,
)
    requires
        upload_spec(s, token, fields, base).1 is Ok,
    ensures
        file_of(fields) is Ok,
        sniffed_kind(file_of(fields)->Ok_0) is Some,
        upload_spec(s, token, fields, base).1 == Ok::<Seq<char>, ErrorView>(
            file_name_of(base, sniffed_kind(file_of(fields)->Ok_0)->Some_0.1),
        ),
        get_image_spec(
            upload_spec(s, token, fields, base).0,
            upload_spec(s, token, fields, base).1->Ok_0,
        ) == Ok::<DownloadView, ErrorView>(
            DownloadView {
                content_type: sniffed_kind(file_of(fields)->Ok_0)->Some_0.0,
                body: file_of(fields)->Ok_0,
            },
        ),
{
}

/// An upload whose type is not recognised is refused as a bad request, and
/// the store stays as it was. The requester holds a key: without one the
/// request is refused before the file is looked at.
pub proof fn lemma_unknown_type_is_refused(
    s: StoreView,
    token: Seq<char>,
    fields: Seq<FormField>,
    base: Seq<char>,
)
    requires
        s.holder_of(token) is Some,
        file_of(fields) is Ok,
        sniffed_kind(file_of(fields)->Ok_0) is None,
    ensures
        upload_spec(s, token, fields, base) == (
            s,
            Err::<Seq<char>, ErrorView>(ErrorView::BadRequest(UNKNOWN_FILE_TYPE@)),
        ),
{
}

/// An upload that is refused, for whatever reason, leaves the store as it
/// was.
pub proof fn lemma_refused_upload_stores_nothing(
    s: StoreView,
    token: Seq<char>,
    fields: Seq<FormField>,
    base: Seq<char>,
)
    requires
        upload_spec(s, token, fields, base).1 is Err,
    ensures
        upload_spec(s, token, fields, base).0 == s,
{
}

/// An upload whose drawn name is taken is refused as an internal error: the
/// file that has the name stays as it is.
pub proof fn lemma_name_collision_overwrites_nothing(
    s: StoreView,
    token: Seq<char>,
    fields: Seq<FormField>,
    base: Seq<char>,
)
    requires
        s.holder_of(token) is Some,
        planned_upload(s.holder_of(token)->Some_0.id, fields, base) is Ok,
        s.media.contains_key(
            planned_upload(s.holder_of(token)->Some_0.id, fields, base)->Ok_0.file_name,
        ),
    ensures
        upload_spec(s, token, fields, base) == (
            s,
            Err::<Seq<char>, ErrorView>(ErrorView::InternalError(FILE_NAME_TAKEN@)),
        ),
{
}

/// Who neither owns a file nor is an admin cannot delete it: the request is
/// refused and the file stays.
pub proof fn lemma_stranger_cannot_delete(s: StoreView, token: Seq<char>, name: Seq<char>)
    requires
        s.holder_of(token) is Some,
        s.file(name) is Some,
        s.file(name)->Some_0.user_id != s.holder_of(token)->Some_0.id,
        !s.holder_of(token)->Some_0.is_admin,
    ensures
        delete_image_spec(s, token, name) == (
            s,
            Err::<Seq<char>, ErrorView>(ErrorView::Unauthorized(NOT_OWNER@)),
        ),
{
}

/// A deletion of a file that succeeds was asked for by its owner or by an
/// admin.
pub proof fn lemma_deleted_by_owner_or_admin(s: StoreView, token: Seq<char>, name: Seq<char>)
    requires
        delete_image_spec(s, token, name).1 is Ok,
    ensures
        s.holder_of(token) is Some,
        s.file(name) is Some,
        s.file(name)->Some_0.user_id == s.holder_of(token)->Some_0.id || s.holder_of(
            token,
        )->Some_0.is_admin,
        delete_image_spec(s, token, name).0.file(name) is None,
{
}

/// After a user and its files were purged, no file refers to the user, the
/// user is gone, and everything else is as it was.
pub proof fn lemma_purged(s: StoreView, id: UserId)
    ensures
        !s.purged(id).owns_media(id),
        s.purged(id).user(id) is None,
        forall|name: Seq<char>| #[trigger]
            s.purged(id).media.contains_key(name) ==> s.purged(id).media[name].user_id != id,
        forall|name: Seq<char>|
            s.media.contains_key(name) && s.media[name].user_id != id ==> #[trigger] s.purged(
                id,
            ).file(name) == s.file(name),
        forall|other: UserId| other != id ==> #[trigger] s.purged(id).user(other) == s.user(other),
{
    assert forall|name: Seq<char>| !s.purged(id).owned_file(id, name) by {}
}

/// After a user deleted its own account, no file refers to it.
pub proof fn lemma_self_deletion_leaves_nothing(s: StoreView, token: Seq<char>)
    requires
        delete_user_self_spec(s, token).1 is Ok,
    ensures
        s.holder_of(token) is Some,
        !delete_user_self_spec(s, token).0.owns_media(s.holder_of(token)->Some_0.id),
        delete_user_self_spec(s, token).0.user(s.holder_of(token)->Some_0.id) is None,
{
    lemma_purged(s, s.holder_of(token)->Some_0.id);
}

/// After an admin deleted an account by its id, no file refers to it.
pub proof fn lemma_admin_deletion_leaves_nothing(
    s: StoreView,
    userid: Seq<char>,
    token: Seq<char>,
)
    requires
        s.wf(),
        delete_user_by_id_spec(s, userid, token).1 is Ok,
    ensures
        uuid_reading(userid) is Ok,
        !delete_user_by_id_spec(s, userid, token).0.owns_media(uuid_reading(userid)->Ok_0),
        delete_user_by_id_spec(s, userid, token).0.user(uuid_reading(userid)->Ok_0) is None,
{
    lemma_purged(s, uuid_reading(userid)->Ok_0);
}

/// A registration with another key than the configured invite key is
/// refused, and no account is made.
pub proof fn lemma_wrong_invite_key(
    s: StoreView,
    invite_key: Seq<char>,
    username: Seq<char>,
    key: Seq<char>,
    access_key: Seq<char>,
)
    requires
        key != invite_key,
    ensures
        register_user_spec(s, invite_key, username, key, access_key) == (
            s,
            Err::<Seq<char>, ErrorView>(ErrorView::Unauthorized(INVALID_INVITE_KEY@)),
        ),
{
}

/// An account that a registration made is no admin, and its access key is the
/// one that was replied.
pub proof fn lemma_registered_is_no_admin(
    s: StoreView,
    invite_key: Seq<char>,
    username: Seq<char>,
    key: Seq<char>,
    access_key: Seq<char>,
)
    requires
        s.wf(),
        register_user_spec(s, invite_key, username, key, access_key).1 is Ok,
    ensures
        key == invite_key,
        register_user_spec(s, invite_key, username, key, access_key).1 == Ok::<
            Seq<char>,
            ErrorView,
        >(access_key),
        register_user_spec(s, invite_key, username, key, access_key).0.holder_of(access_key)
            is Some,
        !register_user_spec(s, invite_key, username, key, access_key).0.holder_of(
            access_key,
        )->Some_0.is_admin,
        register_user_spec(s, invite_key, username, key, access_key).0.holder_of(
            access_key,
        )->Some_0.username == username,
{
    let after = register_user_spec(s, invite_key, username, key, access_key).0;
    assert(after.holds_key(s.next_id, access_key));
    let id = choose|id: UserId| after.holds_key(id, access_key);
    if id != s.next_id {
        assert(s.holds_key(id, access_key));
    }
}

/// An admin who asks for the deletion of an account that is no admin gets
/// it: the account and its files go.
pub proof fn lemma_admin_deletes_user(s: StoreView, userid: Seq<char>, token: Seq<char>)
    requires
        s.wf(),
        s.holder_of(token) is Some,
        s.holder_of(token)->Some_0.is_admin,
        uuid_reading(userid) is Ok,
        s.user(uuid_reading(userid)->Ok_0) is Some,
        !s.user(uuid_reading(userid)->Ok_0)->Some_0.is_admin,
    ensures
        delete_user_by_id_spec(s, userid, token) == (
            s.purged(uuid_reading(userid)->Ok_0),
            Ok::<Seq<char>, ErrorView>(USER_DELETED@),
        ),
{
}

/// Nobody deletes the account of an admin by its id: whoever asks is refused
/// as unauthorized, an admin with the words that say why, and the store
/// stays as it was.
pub proof fn lemma_admin_is_never_deleted(s: StoreView, userid: Seq<char>, token: Seq<char>)
    requires
        uuid_reading(userid) is Ok,
        s.user(uuid_reading(userid)->Ok_0) is Some,
        s.user(uuid_reading(userid)->Ok_0)->Some_0.is_admin,
    ensures
        delete_user_by_id_spec(s, userid, token).0 == s,
        delete_user_by_id_spec(s, userid, token).1 matches Err(ErrorView::Unauthorized(_)),
        authenticated(s.holder_of(token)) matches Ok(requester) && requester.is_admin
            ==> delete_user_by_id_spec(s, userid, token).1 == Err::<Seq<char>, ErrorView>(
            ErrorView::Unauthorized(TARGET_IS_ADMIN@),
        ),
{
}

/// No operation changes an account that it leaves in the store: nobody
/// becomes an admin, or stops being one, through a request.
pub proof fn lemma_accounts_stay_as_they_are(
    s: StoreView,
    token: Seq<char>,
    name: Seq<char>,
    fields: Seq<FormField>,
    base: Seq<char>,
    invite_key: Seq<char>,
    username: Seq<char>,
    key: Seq<char>,
    access_key: Seq<char>,
    userid: Seq<char>,
    id: UserId,
)
    requires
        s.wf(),
        s.users.contains_key(id),
    ensures
        upload_spec(s, token, fields, base).0.users == s.users,
        delete_image_spec(s, token, name).0.users == s.users,
        register_user_spec(s, invite_key, username, key, access_key).0.user(id) == s.user(id),
        delete_user_by_id_spec(s, userid, token).0.users.contains_key(id)
            ==> delete_user_by_id_spec(s, userid, token).0.user(id) == s.user(id),
        delete_user_self_spec(s, token).0.users.contains_key(id) ==> delete_user_self_spec(
            s,
            token,
        ).0.user(id) == s.user(id),
{
}

/// The store keeps its rules under every operation: rows stay filed under
/// their keys, access keys stay unique, and every file keeps an owner.
pub proof fn lemma_rules_are_kept(
    s: StoreView,
    token: Seq<char>,
    name: Seq<char>,
    fields: Seq<FormField>,
    base: Seq<char>,
    invite_key: Seq<char>,
    username: Seq<char>,
    key: Seq<char>,
    access_key: Seq<char>,
    userid: Seq<char>,
)
    requires
        s.wf(),
    ensures
        upload_spec(s, token, fields, base).0.wf(),
        delete_image_spec(s, token, name).0.wf(),
        register_user_spec(s, invite_key, username, key, access_key).0.wf(),
        delete_user_by_id_spec(s, userid, token).0.wf(),
        delete_user_self_spec(s, token).0.wf(),
{
    assert forall|id: UserId| #[trigger] s.purged(id).wf() by {
        lemma_purged(s, id);
    }
    if !s.key_in_use(access_key) {
        let after = s.with_user(username, access_key);
        assert forall|a: UserId, b: UserId|
            after.users.contains_key(a) && after.users.contains_key(b) && after.users[a].access_key
                == after.users[b].access_key implies a == b by {
            if a != s.next_id {
                assert(!s.holds_key(a, access_key));
            }
            if b != s.next_id {
                assert(!s.holds_key(b, access_key));
            }
        }
    }
}

} // verus!
