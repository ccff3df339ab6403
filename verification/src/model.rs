//! The records that the service keeps and the values that its operations
//! return, each with its mathematical view.

use crate::messages::{INTERNAL_ERROR, NOT_FOUND};
use vstd::prelude::*;
use vstd::string::*;

verus! {

/// Identifier of a user: the 128-bit value of its UUID.
pub type UserId = u128;

/// An account.
#[derive(Clone, Debug, PartialEq, Eq)]
pub struct User {
    pub id: UserId,
    pub username: String,
    pub access_key: String,
    pub is_admin: bool,
}

/// The model of an account.
pub struct UserView {
    pub id: UserId,
    pub username: Seq<char>,
    pub access_key: Seq<char>,
    pub is_admin: bool,
}

impl View for User {
    type V = UserView;

    open spec fn view(&self) -> UserView {
        UserView {
            id: self.id,
            username: self.username@,
            access_key: self.access_key@,
            is_admin: self.is_admin,
        }
    }
}

impl User {
    /// A copy of this record.
    pub(crate) fn duplicate(&self) -> (r: User)
        ensures
            r@ == self@,
    {
        User {
            id: self.id,
            username: self.username.clone(),
            access_key: self.access_key.clone(),
            is_admin: self.is_admin,
        }
    }
}

/// A stored file with its detected type and its owner.
#[derive(Clone, Debug, PartialEq, Eq)]
pub struct Media {
    pub file_name: String,
    pub content: Vec<u8>,
    pub mime_type: String,
    pub user_id: UserId,
}

/// The model of a stored file.
pub struct MediaView {
    pub file_name: Seq<char>,
    pub content: Seq<u8>,
    pub mime_type: Seq<char>,
    pub user_id: UserId,
}

impl View for Media {
    type V = MediaView;

    open spec fn view(&self) -> MediaView {
        MediaView {
            file_name: self.file_name@,
            content: self.content@,
            mime_type: self.mime_type@,
            user_id: self.user_id,
        }
    }
}

impl Media {
    /// A copy of this record.
    pub(crate) fn duplicate(&self) -> (r: Media)
        ensures
            r@ == self@,
    {
        Media {
            file_name: self.file_name.clone(),
            content: self.content.clone(),
            mime_type: self.mime_type.clone(),
            user_id: self.user_id,
        }
    }
}

/// Why a request was refused.
#[derive(Clone, Debug, PartialEq, Eq)]
pub enum Error {
    BadRequest(String),
    Unauthorized(String),
    NotFound,
    InternalError(String),
}

/// The model of a refusal.
pub enum ErrorView {
    BadRequest(Seq<char>),
    Unauthorized(Seq<char>),
    NotFound,
    InternalError(Seq<char>),
}

impl View for Error {
    type V = ErrorView;

    open spec fn view(&self) -> ErrorView {
        match *self {
            Error::BadRequest(m) => ErrorView::BadRequest(m@),
            Error::Unauthorized(m) => ErrorView::Unauthorized(m@),
            Error::NotFound => ErrorView::NotFound,
            Error::InternalError(m) => ErrorView::InternalError(m@),
        }
    }
}

impl ErrorView {
    /// The HTTP status that goes with a refusal: one class for each kind.
    pub open spec fn status(self) -> u16 {
        match self {
            ErrorView::BadRequest(_) => 400,
            ErrorView::Unauthorized(_) => 401,
            ErrorView::NotFound => 404,
            ErrorView::InternalError(_) => 500,
        }
    }

    /// The words that the client gets to read. What went wrong inside the
    /// service is not among them.
    pub open spec fn message(self) -> Seq<char> {
        match self {
            ErrorView::BadRequest(message) => message,
            ErrorView::Unauthorized(message) => message,
            ErrorView::NotFound => NOT_FOUND@,
            ErrorView::InternalError(_) => INTERNAL_ERROR@,
        }
    }
}

impl Error {
    /// The HTTP status that goes with this refusal.
    pub fn status(&self) -> (code: u16)
        ensures
            code == self@.status(),
    {
        match self {
            Error::BadRequest(_) => 400,
            Error::Unauthorized(_) => 401,
            Error::NotFound => 404,
            Error::InternalError(_) => 500,
        }
    }

    /// The words that the client gets to read.
    pub fn message(&self) -> (text: String)
        ensures
            text@ == self@.message(),
    {
        match self {
            Error::BadRequest(message) => message.clone(),
            Error::Unauthorized(message) => message.clone(),
            Error::NotFound => String::from_str(NOT_FOUND),
            Error::InternalError(_) => String::from_str(INTERNAL_ERROR),
        }
    }
}

/// The body of a successful reply.
#[derive(Clone, Debug, PartialEq, Eq)]
pub struct Response {
    pub msg: String,
}

impl View for Response {
    type V = Seq<char>;

    open spec fn view(&self) -> Seq<char> {
        self.msg@
    }
}

/// What a request ended in, as a value of the model.
pub type Outcome = Result<Seq<char>, ErrorView>;

/// A result as a value of the model.
pub open spec fn result_view<T: View>(r: Result<T, Error>) -> Result<T::V, ErrorView> {
    match r {
        Ok(v) => Ok(v@),
        Err(e) => Err(e@),
    }
}

/// What may be absent, as a value of the model.
pub open spec fn option_view<T: View>(o: Option<T>) -> Option<T::V> {
    match o {
        Some(v) => Some(v@),
        None => None,
    }
}

/// One field of an upload form. A field whose bytes could not be read has no
/// content.
#[derive(Clone, Debug, PartialEq, Eq)]
pub struct FormField {
    pub name: Option<String>,
    pub content: Option<Vec<u8>>,
}

/// A file as it is handed out: its bytes and the content type to send with
/// them.
#[derive(Clone, Debug, PartialEq, Eq)]
pub struct Download {
    pub content_type: String,
    pub body: Vec<u8>,
}

/// The model of a file as it is handed out.
pub struct DownloadView {
    pub content_type: Seq<char>,
    pub body: Seq<u8>,
}

impl View for Download {
    type V = DownloadView;

    open spec fn view(&self) -> DownloadView {
        DownloadView { content_type: self.content_type@, body: self.body@ }
    }
}

/// What the service is configured with.
#[derive(Clone, Debug, PartialEq, Eq)]
pub struct Config {
    pub invite_key: String,
}

} // verus!
