//! The decisions of the service: each takes what was read from the store or
//! from the request and says whether the request goes on, and with what.

use crate::ident::{read_uuid, uuid_reading};
use crate::keys::{random_alphanumeric, ACCESS_KEY_LEN, FILE_NAME_LEN};
use crate::messages::{
    ADMIN_ONLY, FILE_FIELD, FILE_FIELD_MISSING, FILE_FIELD_UNREADABLE, INVALID_ACCESS_KEY,
    INVALID_INVITE_KEY, NOT_OWNER, TARGET_IS_ADMIN, UNKNOWN_FILE_TYPE,
};
use crate::model::{
    option_view, result_view, Config, Download, DownloadView, Error, ErrorView, FormField, Media,
    MediaView, User, UserId, UserView,
};
use crate::sniff::{kind_pair, sniff, sniffed_kind, FileKind};
use crate::text::{all_alphanumeric, same_text};
use vstd::prelude::*;
use vstd::string::*;

verus! {

/// The user behind a request: the holder of the presented key, or a refusal
/// that does not say why.
pub open spec fn authenticated(holder: Option<UserView>) -> Result<UserView, ErrorView> {
    match holder {
        Some(user) => Ok(user),
        None => Err(ErrorView::Unauthorized(INVALID_ACCESS_KEY@)),
    }
}

/// Turns the answer of the identity lookup into the requester or a refusal.
pub fn authenticate(holder: Option<User>) -> (r: Result<User, Error>)
    ensures
        result_view(r) == authenticated(option_view(holder)),
{
    match holder {
        Some(user) => Ok(user),
        None => Err(Error::Unauthorized(String::from_str(INVALID_ACCESS_KEY))),
    }
}

/// Whether a form field is the one that carries the upload.
pub open spec fn is_file_field(field: FormField) -> bool {
    field.name matches Some(name) && name@ == FILE_FIELD@
}

/// The bytes of the first field named `file`, or why there are none.
pub open spec fn file_of(fields: Seq<FormField>) -> Result<Seq<u8>, ErrorView>
    decreases fields.len(),
{
    if fields.len() == 0 {
        Err(ErrorView::BadRequest(FILE_FIELD_MISSING@))
    } else if is_file_field(fields[0]) {
        match fields[0].content {
            Some(content) => Ok(content@),
            None => Err(ErrorView::BadRequest(FILE_FIELD_UNREADABLE@)),
        }
    } else {
        file_of(fields.skip(1))
    }
}

/// Tells whether a form field is the one that carries the upload.
pub fn is_upload_field(field: &FormField) -> (r: bool)
    ensures
        r == is_file_field(*field),
{
    match &field.name {
        Some(name) => same_text(name.as_str(), FILE_FIELD),
        None => false,
    }
}

/// Picks the upload out of the fields of a form.
pub fn select_file(fields: Vec<FormField>) -> (r: Result<Vec<u8>, Error>)
    ensures
        result_view(r) == file_of(fields@),
{
    let ghost all = fields@;
    let mut rest = fields;
    let mut i: usize = 0;
    assert(all.skip(0) =~= all);
    while i < rest.len()
        invariant
            i <= rest.len(),
            rest@ == all,
            fields@ == all,
            file_of(all) == file_of(all.skip(i as int)),
        decreases rest.len() - i,
    {
        proof {
            assert(all.skip(i as int)[0] == all[i as int]);
            assert(all.skip(i as int).skip(1) =~= all.skip(i + 1));
        }
        if is_upload_field(&rest[i]) {
            let field = rest.remove(i);
            return match field.content {
                Some(content) => Ok(content),
                None => Err(Error::BadRequest(String::from_str(FILE_FIELD_UNREADABLE))),
            };
        }
        i += 1;
    }
    Err(Error::BadRequest(String::from_str(FILE_FIELD_MISSING)))
}

/// The name under which a file is stored: the random part, a dot, and the
/// extension of its type.
pub open spec fn file_name_of(base: Seq<char>, extension: Seq<char>) -> Seq<char> {
    base.push('.') + extension
}

/// The row for an upload, given what the type detection found and the random
/// part of the name: a file of unknown type is refused.
pub open spec fn upload_row(
    owner: UserId,
    content: Seq<u8>,
    kind: Option<(Seq<char>, Seq<char>)>,
    base: Seq<char>,
) -> Result<MediaView, ErrorView> {
    match kind {
        Some((mime_type, extension)) => Ok(
            MediaView {
                file_name: file_name_of(base, extension),
                content,
                mime_type,
                user_id: owner,
            },
        ),
        None => Err(ErrorView::BadRequest(UNKNOWN_FILE_TYPE@)),
    }
}

/// Builds the row for an upload from the detected type and the random part
/// of its name.
pub fn media_for_upload(owner: UserId, content: Vec<u8>, kind: Option<FileKind>, base: &str) -> (r:
    Result<Media, Error>)
    ensures
        result_view(r) == upload_row(owner, content@, kind_pair(kind), base@),
{
    match kind {
        Some(found) => {
            let mut file_name: String = String::from_str(base);
            file_name.append(".");
            file_name.append(found.extension.as_str());
            proof {
                reveal_strlit(".");
                assert(base@ + "."@ =~= base@.push('.'));
            }
            Ok(Media { file_name, content, mime_type: found.mime_type, user_id: owner })
        },
        None => Err(Error::BadRequest(String::from_str(UNKNOWN_FILE_TYPE))),
    }
}

/// A string of `len` alphanumeric characters.
pub open spec fn random_text(s: Seq<char>, len: nat) -> bool {
    s.len() == len && all_alphanumeric(s)
}

/// Strings of alphanumeric characters exist in every length.
pub proof fn lemma_random_text_exists(len: nat) -> (s: Seq<char>)
    ensures
        random_text(s, len),
{
    Seq::new(len, |i: int| 'a')
}

/// The row for the upload in a form, given the random part of its name.
pub open spec fn planned_upload(owner: UserId, fields: Seq<FormField>, base: Seq<char>) -> Result<
    MediaView,
    ErrorView,
> {
    match file_of(fields) {
        Ok(content) => upload_row(owner, content, sniffed_kind(content), base),
        Err(e) => Err(e),
    }
}

/// Builds the row for the upload in a form: picks the file, detects its type
/// and draws a name for it.
pub fn plan_upload(owner: UserId, fields: Vec<FormField>) -> (r: Result<Media, Error>)
    ensures
        exists|base: Seq<char>|
            random_text(base, FILE_NAME_LEN as nat) && result_view(r) == #[trigger] planned_upload(
                owner,
                fields@,
                base,
            ),
{
    match select_file(fields) {
        Ok(content) => {
            let kind = sniff(&content);
            if kind.is_none() {
                proof {
                    let any = lemma_random_text_exists(FILE_NAME_LEN as nat);
                    assert(planned_upload(owner, fields@, any) == Err::<MediaView, ErrorView>(
                        ErrorView::BadRequest(UNKNOWN_FILE_TYPE@),
                    ));
                }
                return Err(Error::BadRequest(String::from_str(UNKNOWN_FILE_TYPE)));
            }
            let base = random_alphanumeric(FILE_NAME_LEN);
            let r = media_for_upload(owner, content, kind, base.as_str());
            proof {
                assert(result_view(r) == planned_upload(owner, fields@, base@));
            }
            r
        },
        Err(e) => {
            proof {
                let any = lemma_random_text_exists(FILE_NAME_LEN as nat);
                assert(planned_upload(owner, fields@, any) == Err::<MediaView, ErrorView>(e@));
            }
            Err(e)
        },
    }
}

/// What a lookup by name hands out: the bytes and their type, or nothing.
pub open spec fn served(found: Option<MediaView>) -> Result<DownloadView, ErrorView> {
    match found {
        Some(file) => Ok(DownloadView { content_type: file.mime_type, body: file.content }),
        None => Err(ErrorView::NotFound),
    }
}

/// Turns the answer of a lookup by name into what is handed out. Anyone may
/// read: no requester is asked for.
pub fn serve_media(found: Option<Media>) -> (r: Result<Download, Error>)
    ensures
        result_view(r) == served(option_view(found)),
{
    match found {
        Some(file) => Ok(Download { content_type: file.mime_type, body: file.content }),
        None => Err(Error::NotFound),
    }
}

/// Who may delete a file: its owner and any admin.
pub open spec fn may_delete_media(requester: UserView, file: MediaView) -> bool {
    file.user_id == requester.id || requester.is_admin
}

/// Whether the requester may delete what the lookup by name found.
pub open spec fn media_deletion(requester: UserView, found: Option<MediaView>) -> Result<
    (),
    ErrorView,
> {
    match found {
        None => Err(ErrorView::NotFound),
        Some(file) => if may_delete_media(requester, file) {
            Ok(())
        } else {
            Err(ErrorView::Unauthorized(NOT_OWNER@))
        },
    }
}

/// Decides on the deletion of a file.
pub fn authorize_media_delete(requester: &User, found: &Option<Media>) -> (r: Result<(), Error>)
    ensures
        result_view(r) == media_deletion(requester@, option_view(*found)),
{
    match found {
        None => Err(Error::NotFound),
        Some(file) => {
            if file.user_id != requester.id && !requester.is_admin {
                Err(Error::Unauthorized(String::from_str(NOT_OWNER)))
            } else {
                Ok(())
            }
        },
    }
}

/// Whether a registration may go on: only with the configured invite key.
pub open spec fn invited(invite_key: Seq<char>, key: Seq<char>) -> Result<(), ErrorView> {
    if key == invite_key {
        Ok(())
    } else {
        Err(ErrorView::Unauthorized(INVALID_INVITE_KEY@))
    }
}

/// Decides on a registration.
pub fn check_invite(config: &Config, key: &str) -> (r: Result<(), Error>)
    ensures
        result_view(r) == invited(config.invite_key@, key@),
{
    if same_text(key, config.invite_key.as_str()) {
        Ok(())
    } else {
        Err(Error::Unauthorized(String::from_str(INVALID_INVITE_KEY)))
    }
}

/// Decides on a registration and draws the access key of the new account.
pub fn issue_access_key(config: &Config, key: &str) -> (r: Result<String, Error>)
    ensures
        match r {
            Ok(access_key) => invited(config.invite_key@, key@) is Ok && random_text(
                access_key@,
                ACCESS_KEY_LEN as nat,
            ),
            Err(e) => invited(config.invite_key@, key@) == Err::<(), ErrorView>(e@),
        },
{
    match check_invite(config, key) {
        Ok(()) => Ok(random_alphanumeric(ACCESS_KEY_LEN)),
        Err(e) => Err(e),
    }
}

/// Whether the requester may delete accounts by id: admins only.
pub open spec fn admin_only(requester: UserView) -> Result<(), ErrorView> {
    if requester.is_admin {
        Ok(())
    } else {
        Err(ErrorView::Unauthorized(ADMIN_ONLY@))
    }
}

/// Decides whether the requester may delete accounts by id.
pub fn require_admin(requester: &User) -> (r: Result<(), Error>)
    ensures
        result_view(r) == admin_only(requester@),
{
    if requester.is_admin {
        Ok(())
    } else {
        Err(Error::Unauthorized(String::from_str(ADMIN_ONLY)))
    }
}

/// The id that a text was read as, or the refusal of a text that is none.
pub open spec fn target_id(reading: Result<UserId, Seq<char>>) -> Result<UserId, ErrorView> {
    match reading {
        Ok(id) => Ok(id),
        Err(message) => Err(ErrorView::BadRequest(message)),
    }
}

/// Turns what the UUID parser made of a text into the id or a refusal.
pub fn target_of(reading: Result<UserId, String>) -> (r: Result<UserId, Error>)
    ensures
        result_view(r) == target_id(
            match reading {
                Ok(id) => Ok(id),
                Err(message) => Err(message@),
            },
        ),
{
    match reading {
        Ok(id) => Ok(id),
        Err(message) => Err(Error::BadRequest(message)),
    }
}

/// Reads the id of the account to delete from its text form.
pub fn parse_target(userid: &str) -> (r: Result<UserId, Error>)
    ensures
        result_view(r) == target_id(uuid_reading(userid@)),
{
    target_of(read_uuid(userid))
}

/// Whether the account that the lookup by id found may be deleted: it must
/// exist and be no admin.
pub open spec fn user_deletion(found: Option<UserView>) -> Result<UserId, ErrorView> {
    match found {
        None => Err(ErrorView::NotFound),
        Some(target) => if target.is_admin {
            Err(ErrorView::Unauthorized(TARGET_IS_ADMIN@))
        } else {
            Ok(target.id)
        },
    }
}

/// Decides on the deletion of an account by an admin.
pub fn authorize_user_delete(found: &Option<User>) -> (r: Result<UserId, Error>)
    ensures
        result_view(r) == user_deletion(option_view(*found)),
{
    match found {
        None => Err(Error::NotFound),
        Some(target) => {
            if target.is_admin {
                Err(Error::Unauthorized(String::from_str(TARGET_IS_ADMIN)))
            } else {
                Ok(target.id)
            }
        },
    }
}

} // verus!
