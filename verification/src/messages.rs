//! The texts that replies carry.

use vstd::prelude::*;

verus! {

/// Name of the form field that carries an upload.
pub const FILE_FIELD: &'static str = "file";

/// No account holds the presented access key.
pub const INVALID_ACCESS_KEY: &'static str = "invalid access key.";

/// The form of an upload has no field named `file`.
pub const FILE_FIELD_MISSING: &'static str = "unable to find multipart field `file`.";

/// The bytes of the field `file` could not be read.
pub const FILE_FIELD_UNREADABLE: &'static str = "error getting the bytes from field `file`";

/// The type of an uploaded file was not recognised.
pub const UNKNOWN_FILE_TYPE: &'static str = "could not determine mimetype.";

/// A user who neither uploaded a file nor is an admin asked to delete it.
pub const NOT_OWNER: &'static str =
    "the uploader id does not match your id and you are not an admin.";

/// A registration came with the wrong invite key.
pub const INVALID_INVITE_KEY: &'static str = "invite key was invalid.";

/// A user who is no admin asked to delete an account by its id.
pub const ADMIN_ONLY: &'static str =
    "you must be an admin to use this endpoint, if you are a user trying to delete your account use `/user/delete`.";

/// An admin asked to delete the account of an admin.
pub const TARGET_IS_ADMIN: &'static str =
    "cannot delete another admin, if you need to delete an admin, do it directly from the database.";

/// The store refused a new account: another one holds the same access key.
pub const ACCESS_KEY_TAKEN: &'static str = "access key is already in use.";

/// The store refused a new account: every identifier has been given out.
pub const IDS_EXHAUSTED: &'static str = "no user id is left.";

/// The store refused a file: another one has the same name.
pub const FILE_NAME_TAKEN: &'static str = "file name is already in use.";

/// The store refused a file: its owner is no account.
pub const OWNER_MISSING: &'static str = "the owner of the media does not exist.";

/// The store refused to delete an account that still owns media.
pub const USER_OWNS_MEDIA: &'static str = "the user still owns media.";

/// What is said of something that does not exist.
pub const NOT_FOUND: &'static str = "not found.";

/// What is said of a failure inside the service. The details stay inside.
pub const INTERNAL_ERROR: &'static str = "internal error.";

/// Reply to the deletion of a file.
pub const MEDIA_DELETED: &'static str = "media deleted.";

/// Reply to the deletion of an account.
pub const USER_DELETED: &'static str = "user deleted";

} // verus!
