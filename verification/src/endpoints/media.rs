//! Uploading, fetching and deleting media.

use crate::access::{
    authenticate, authenticated, authorize_media_delete, lemma_random_text_exists, media_deletion,
    plan_upload, planned_upload, random_text, serve_media, served,
};
use crate::keys::FILE_NAME_LEN;
use crate::messages::MEDIA_DELETED;
use crate::model::{
    result_view, Download, DownloadView, Error, ErrorView, FormField, Outcome,
    Response,
};
use crate::store::{Store, StoreView};
use vstd::prelude::*;
use vstd::string::*;

verus! {

/// What an upload does to the store and what it replies, given the random
/// part of the file's name: the requester must hold a key, the form must
/// carry a readable file of a known type, and the store must take the row.
/// The reply to a stored file is its name.
pub open spec fn upload_spec(
    s: StoreView,
    token: Seq<char>,
    fields: Seq<FormField>,
    base: Seq<char>,
) -> (StoreView, Outcome) {
    match authenticated(s.holder_of(token)) {
        Err(e) => (s, Err(e)),
        Ok(user) => match planned_upload(user.id, fields, base) {
            Err(e) => (s, Err(e)),
            Ok(row) => match s.create_media(row).1 {
                Ok(()) => (s.create_media(row).0, Ok(row.file_name)),
                Err(e) => (s, Err(e)),
            },
        },
    }
}

/// Stores the file of an upload form for the holder of `token`, under a
/// random name with the extension of its detected type, and replies with
/// that name.
pub fn upload(store: &mut Store, token: &str, fields: Vec<FormField>) -> (r: Result<
    Response,
    Error,
>)
    requires
        old(store).wf(),
    ensures
        final(store).wf(),
        exists|base: Seq<char>|
            random_text(base, FILE_NAME_LEN as nat) && (final(store)@, result_view(r))
                == #[trigger] upload_spec(old(store)@, token@, fields@, base),
{
    let ghost form = fields@;
    let user = match authenticate(store.resolve(token)) {
        Ok(user) => user,
        Err(e) => {
            proof {
                let any = lemma_random_text_exists(FILE_NAME_LEN as nat);
                assert((store@, Err::<Seq<char>, ErrorView>(e@)) == upload_spec(
                    old(store)@,
                    token@,
                    form,
                    any,
                ));
            }
            return Err(e);
        },
    };
    let planned = plan_upload(user.id, fields);
    let ghost base = choose|base: Seq<char>|
        random_text(base, FILE_NAME_LEN as nat) && result_view(planned) == #[trigger] planned_upload(
            user.id,
            form,
            base,
        );
    let row = match planned {
        Ok(row) => row,
        Err(e) => {
            proof {
                assert((store@, Err::<Seq<char>, ErrorView>(e@)) == upload_spec(
                    old(store)@,
                    token@,
                    form,
                    base,
                ));
            }
            return Err(e);
        },
    };
    let file_name = row.file_name.clone();
    let stored = store.create_media(row);
    let r = match stored {
        Ok(()) => Ok(Response { msg: file_name }),
        Err(e) => Err(e),
    };
    proof {
        assert((store@, result_view(r)) == upload_spec(old(store)@, token@, form, base));
    }
    r
}

/// What fetching a file by name hands out. Nobody is asked who they are.
pub open spec fn get_image_spec(s: StoreView, name: Seq<char>) -> Result<DownloadView, ErrorView> {
    served(s.file(name))
}

/// Hands out the file with this name: its bytes as they were uploaded, and
/// its stored type as the content type.
pub fn get_image(store: &Store, name: &str) -> (r: Result<Download, Error>)
    requires
        store.wf(),
    ensures
        result_view(r) == get_image_spec(store@, name@),
{
    serve_media(store.find_media(name))
}

/// What the deletion of a file does to the store and what it replies: the
/// requester must hold a key, the file must exist, and the requester must
/// own it or be an admin.
pub open spec fn delete_image_spec(s: StoreView, token: Seq<char>, name: Seq<char>) -> (
    StoreView,
    Outcome,
) {
    match authenticated(s.holder_of(token)) {
        Err(e) => (s, Err(e)),
        Ok(user) => match media_deletion(user, s.file(name)) {
            Err(e) => (s, Err(e)),
            Ok(()) => (s.without_media(name), Ok(MEDIA_DELETED@)),
        },
    }
}

/// Deletes the file with this name for the holder of `token`.
pub fn delete_image(store: &mut Store, token: &str, name: &str) -> (r: Result<Response, Error>)
    requires
        old(store).wf(),
    ensures
        final(store).wf(),
        (final(store)@, result_view(r)) == delete_image_spec(old(store)@, token@, name@),
{
    let user = match authenticate(store.resolve(token)) {
        Ok(user) => user,
        Err(e) => {
            return Err(e);
        },
    };
    let found = store.find_media(name);
    match authorize_media_delete(&user, &found) {
        Ok(()) => {
            store.delete_media(name);
            Ok(Response { msg: String::from_str(MEDIA_DELETED) })
        },
        Err(e) => Err(e),
    }
}

} // verus!
