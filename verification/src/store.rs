//! The two tables of the service, users and media, kept in memory, with the
//! rules that a relational store would enforce: primary keys, the uniqueness
//! of access keys, and the reference from each file to its owner.

use crate::messages::{
    ACCESS_KEY_TAKEN, FILE_NAME_TAKEN, IDS_EXHAUSTED, OWNER_MISSING, USER_OWNS_MEDIA,
};
use crate::model::{
    option_view, result_view, Error, ErrorView, Media, MediaView, User, UserId, UserView,
};
use crate::table::{
    distinct, lemma_absent, lemma_present, lemma_push, lemma_remove, lemma_row,
    lemma_update, table,
};
use crate::text::same_text;
use vstd::prelude::*;
use vstd::string::*;

verus! {

/// What the store holds: users by id, media by file name, and the id that the
/// next new user gets.
pub struct StoreView {
    pub users: Map<UserId, UserView>,
    pub media: Map<Seq<char>, MediaView>,
    pub next_id: UserId,
}

/// The files of `media` that `owner` does not own.
pub open spec fn not_owned_by(media: Map<Seq<char>, MediaView>, owner: UserId) -> Map<
    Seq<char>,
    MediaView,
> {
    Map::new(
        |name: Seq<char>| media.contains_key(name) && media[name].user_id != owner,
        |name: Seq<char>| media[name],
    )
}

impl StoreView {
    /// Each row is filed under its own key, ids below `next_id`; no two users
    /// share an access key; the owner of each file is a user.
    pub open spec fn wf(self) -> bool {
        &&& forall|id: UserId| #[trigger]
            self.users.contains_key(id) ==> self.users[id].id == id && id < self.next_id
        &&& forall|a: UserId, b: UserId|
            #![trigger self.users.contains_key(a), self.users.contains_key(b)]
            self.users.contains_key(a) && self.users.contains_key(b) && self.users[a].access_key
                == self.users[b].access_key ==> a == b
        &&& forall|name: Seq<char>| #[trigger]
            self.media.contains_key(name) ==> self.media[name].file_name == name
                && self.users.contains_key(self.media[name].user_id)
    }

    /// User `id` exists and its access key is `token`.
    pub open spec fn holds_key(self, id: UserId, token: Seq<char>) -> bool {
        self.users.contains_key(id) && self.users[id].access_key == token
    }

    /// Some user's access key is `token`.
    pub open spec fn key_in_use(self, token: Seq<char>) -> bool {
        exists|id: UserId| self.holds_key(id, token)
    }

    /// The user whose access key is `token`, if there is one.
    pub open spec fn holder_of(self, token: Seq<char>) -> Option<UserView> {
        if self.key_in_use(token) {
            Some(self.users[choose|id: UserId| self.holds_key(id, token)])
        } else {
            None
        }
    }

    /// The user with this id, if there is one.
    pub open spec fn user(self, id: UserId) -> Option<UserView> {
        if self.users.contains_key(id) {
            Some(self.users[id])
        } else {
            None
        }
    }

    /// The file with this name, if there is one.
    pub open spec fn file(self, name: Seq<char>) -> Option<MediaView> {
        if self.media.contains_key(name) {
            Some(self.media[name])
        } else {
            None
        }
    }

    /// File `name` exists and belongs to `owner`.
    pub open spec fn owned_file(self, owner: UserId, name: Seq<char>) -> bool {
        self.media.contains_key(name) && self.media[name].user_id == owner
    }

    /// Some file belongs to `owner`.
    pub open spec fn owns_media(self, owner: UserId) -> bool {
        exists|name: Seq<char>| self.owned_file(owner, name)
    }

    /// The store after a new user, no admin, got the next id.
    pub open spec fn with_user(self, username: Seq<char>, access_key: Seq<char>) -> StoreView {
        StoreView {
            users: self.users.insert(
                self.next_id,
                UserView { id: self.next_id, username, access_key, is_admin: false },
            ),
            media: self.media,
            next_id: (self.next_id + 1) as UserId,
        }
    }

    /// The store after user `id` was made an admin, or no longer one.
    pub open spec fn with_admin(self, id: UserId, is_admin: bool) -> StoreView {
        StoreView {
            users: self.users.insert(
                id,
                UserView {
                    id,
                    username: self.users[id].username,
                    access_key: self.users[id].access_key,
                    is_admin,
                },
            ),
            media: self.media,
            next_id: self.next_id,
        }
    }

    /// The store after a file was added.
    pub open spec fn with_media(self, file: MediaView) -> StoreView {
        StoreView {
            users: self.users,
            media: self.media.insert(file.file_name, file),
            next_id: self.next_id,
        }
    }

    /// The store without the file `name`.
    pub open spec fn without_media(self, name: Seq<char>) -> StoreView {
        StoreView { users: self.users, media: self.media.remove(name), next_id: self.next_id }
    }

    /// The store without the files of `owner`.
    pub open spec fn without_media_of(self, owner: UserId) -> StoreView {
        StoreView {
            users: self.users,
            media: not_owned_by(self.media, owner),
            next_id: self.next_id,
        }
    }

    /// The store without the user `id`.
    pub open spec fn without_user(self, id: UserId) -> StoreView {
        StoreView { users: self.users.remove(id), media: self.media, next_id: self.next_id }
    }

    /// The store after user `id` and all its files are gone.
    pub open spec fn purged(self, id: UserId) -> StoreView {
        self.without_media_of(id).without_user(id)
    }

    /// Adding a user: refused while another user holds the access key, or
    /// when no id is left; else the user gets the next id.
    pub open spec fn create_user(self, username: Seq<char>, access_key: Seq<char>) -> (
        StoreView,
        Result<UserId, ErrorView>,
    ) {
        if self.key_in_use(access_key) {
            (self, Err(ErrorView::InternalError(ACCESS_KEY_TAKEN@)))
        } else if self.next_id == u128::MAX {
            (self, Err(ErrorView::InternalError(IDS_EXHAUSTED@)))
        } else {
            (self.with_user(username, access_key), Ok(self.next_id))
        }
    }

    /// Adding a file: refused while another file has the name, or when the
    /// owner is no user.
    pub open spec fn create_media(self, file: MediaView) -> (StoreView, Result<(), ErrorView>) {
        if self.media.contains_key(file.file_name) {
            (self, Err(ErrorView::InternalError(FILE_NAME_TAKEN@)))
        } else if !self.users.contains_key(file.user_id) {
            (self, Err(ErrorView::InternalError(OWNER_MISSING@)))
        } else {
            (self.with_media(file), Ok(()))
        }
    }

    /// Deleting a user: refused while it owns a file.
    pub open spec fn delete_user(self, id: UserId) -> (StoreView, Result<(), ErrorView>) {
        if self.owns_media(id) {
            (self, Err(ErrorView::InternalError(USER_OWNS_MEDIA@)))
        } else {
            (self.without_user(id), Ok(()))
        }
    }
}

/// The tables in memory.
#[derive(Clone, Debug)]
pub struct Store {
    users: Vec<User>,
    media: Vec<Media>,
    next_id: UserId,
}

spec fn user_key() -> spec_fn(User) -> UserId {
    |u: User| u.id
}

spec fn user_val() -> spec_fn(User) -> UserView {
    |u: User| u@
}

spec fn media_key() -> spec_fn(Media) -> Seq<char> {
    |m: Media| m.file_name@
}

spec fn media_val() -> spec_fn(Media) -> MediaView {
    |m: Media| m@
}

spec fn user_table(rows: Seq<User>) -> Map<UserId, UserView> {
    table(rows, user_key(), user_val())
}

spec fn media_table(rows: Seq<Media>) -> Map<Seq<char>, MediaView> {
    table(rows, media_key(), media_val())
}

impl View for Store {
    type V = StoreView;

    closed spec fn view(&self) -> StoreView {
        StoreView {
            users: user_table(self.users@),
            media: media_table(self.media@),
            next_id: self.next_id,
        }
    }
}

impl Store {
    /// No two rows of a table share its key, and the tables keep the rules of
    /// the model.
    pub closed spec fn wf(&self) -> bool {
        &&& distinct(self.users@, user_key())
        &&& distinct(self.media@, media_key())
        &&& self@.wf()
    }

    /// A well-formed store keeps the rules of the model.
    pub proof fn lemma_view_wf(&self)
        requires
            self.wf(),
        ensures
            self@.wf(),
    {
    }

    /// A store without rows.
    pub fn new() -> (store: Store)
        ensures
            store.wf(),
            store@ == (StoreView { users: Map::empty(), media: Map::empty(), next_id: 0 }),
    {
        let store = Store { users: Vec::new(), media: Vec::new(), next_id: 0 };
        proof {
            lemma_absent_all_users(store.users@);
            lemma_absent_all_media(store.media@);
            assert(store@.users =~= Map::empty());
            assert(store@.media =~= Map::empty());
        }
        store
    }

    /// The row of the user with this id.
    fn user_index(&self, id: UserId) -> (at: Option<usize>)
        ensures
            match at {
                Some(i) => i < self.users.len() && self.users[i as int].id == id,
                None => forall|j: int| 0 <= j < self.users.len() ==> self.users[j].id != id,
            },
    {
        let mut i: usize = 0;
        while i < self.users.len()
            invariant
                i <= self.users.len(),
                forall|j: int| 0 <= j < i ==> self.users[j].id != id,
            decreases self.users.len() - i,
        {
            if self.users[i].id == id {
                return Some(i);
            }
            i += 1;
        }
        None
    }

    /// The row of the user with this access key.
    fn key_index(&self, token: &str) -> (at: Option<usize>)
        ensures
            match at {
                Some(i) => i < self.users.len() && self.users[i as int].access_key@ == token@,
                None => forall|j: int|
                    0 <= j < self.users.len() ==> self.users[j].access_key@ != token@,
            },
    {
        let mut i: usize = 0;
        while i < self.users.len()
            invariant
                i <= self.users.len(),
                forall|j: int| 0 <= j < i ==> self.users[j].access_key@ != token@,
            decreases self.users.len() - i,
        {
            if same_text(self.users[i].access_key.as_str(), token) {
                return Some(i);
            }
            i += 1;
        }
        None
    }

    /// The row of the file with this name.
    fn media_index(&self, name: &str) -> (at: Option<usize>)
        ensures
            match at {
                Some(i) => i < self.media.len() && self.media[i as int].file_name@ == name@,
                None => forall|j: int|
                    0 <= j < self.media.len() ==> self.media[j].file_name@ != name@,
            },
    {
        let mut i: usize = 0;
        while i < self.media.len()
            invariant
                i <= self.media.len(),
                forall|j: int| 0 <= j < i ==> self.media[j].file_name@ != name@,
            decreases self.media.len() - i,
        {
            if same_text(self.media[i].file_name.as_str(), name) {
                return Some(i);
            }
            i += 1;
        }
        None
    }

    /// The first row of a file of this owner.
    fn owned_index(&self, owner: UserId) -> (at: Option<usize>)
        ensures
            match at {
                Some(i) => i < self.media.len() && self.media[i as int].user_id == owner,
                None => forall|j: int| 0 <= j < self.media.len() ==> self.media[j].user_id != owner,
            },
    {
        let mut i: usize = 0;
        while i < self.media.len()
            invariant
                i <= self.media.len(),
                forall|j: int| 0 <= j < i ==> self.media[j].user_id != owner,
            decreases self.media.len() - i,
        {
            if self.media[i].user_id == owner {
                return Some(i);
            }
            i += 1;
        }
        None
    }

    proof fn lemma_user_row(&self, i: int)
        requires
            self.wf(),
            0 <= i < self.users.len(),
        ensures
            self@.user(self.users[i].id) == Some(self.users[i]@),
    {
        lemma_row(self.users@, user_key(), user_val(), i);
    }

    proof fn lemma_no_user(&self, id: UserId)
        requires
            forall|j: int| 0 <= j < self.users.len() ==> self.users[j].id != id,
        ensures
            self@.user(id) is None,
    {
        lemma_absent(self.users@, user_key(), user_val(), id);
    }

    proof fn lemma_key_row(&self, i: int)
        requires
            self.wf(),
            0 <= i < self.users.len(),
        ensures
            self@.holder_of(self.users[i].access_key@) == Some(self.users[i]@),
    {
        let token = self.users[i].access_key@;
        self.lemma_user_row(i);
        assert(self@.holds_key(self.users[i].id, token));
        let id = choose|id: UserId| self@.holds_key(id, token);
        assert(self@.users.contains_key(id) && self@.users.contains_key(self.users[i].id));
    }

    proof fn lemma_no_key(&self, token: Seq<char>)
        requires
            forall|j: int| 0 <= j < self.users.len() ==> self.users[j].access_key@ != token,
        ensures
            !self@.key_in_use(token),
    {
        if self@.key_in_use(token) {
            let id = choose|id: UserId| self@.holds_key(id, token);
            let i = lemma_present(self.users@, user_key(), user_val(), id);
            assert(self.users[i].access_key@ == token);
        }
    }

    proof fn lemma_media_row(&self, i: int)
        requires
            self.wf(),
            0 <= i < self.media.len(),
        ensures
            self@.file(self.media[i].file_name@) == Some(self.media[i]@),
    {
        lemma_row(self.media@, media_key(), media_val(), i);
    }

    proof fn lemma_no_media(&self, name: Seq<char>)
        requires
            forall|j: int| 0 <= j < self.media.len() ==> self.media[j].file_name@ != name,
        ensures
            self@.file(name) is None,
    {
        lemma_absent(self.media@, media_key(), media_val(), name);
    }

    proof fn lemma_no_media_of(&self, owner: UserId)
        requires
            forall|j: int| 0 <= j < self.media.len() ==> self.media[j].user_id != owner,
        ensures
            !self@.owns_media(owner),
            not_owned_by(self@.media, owner) == self@.media,
    {
        assert forall|name: Seq<char>| self@.media.contains_key(name) implies self@.media[name].user_id
            != owner by {
            let i = lemma_present(self.media@, media_key(), media_val(), name);
            assert(self.media[i].user_id != owner);
        }
        assert(not_owned_by(self@.media, owner) =~= self@.media);
    }

    /// The user whose access key is `token`, if there is one.
    pub fn resolve(&self, token: &str) -> (found: Option<User>)
        requires
            self.wf(),
        ensures
            option_view(found) == self@.holder_of(token@),
    {
        match self.key_index(token) {
            Some(i) => {
                proof {
                    self.lemma_key_row(i as int);
                }
                Some(self.users[i].duplicate())
            },
            None => {
                proof {
                    self.lemma_no_key(token@);
                }
                None
            },
        }
    }

    /// Adds a user who is no admin and returns its id.
    pub fn create_user(&mut self, username: String, access_key: String) -> (r: Result<
        UserId,
        Error,
    >)
        requires
            old(self).wf(),
        ensures
            final(self).wf(),
            (final(self)@, result_view(r)) == old(self)@.create_user(username@, access_key@),
    {
        match self.key_index(access_key.as_str()) {
            Some(i) => {
                proof {
                    self.lemma_key_row(i as int);
                }
                Err(Error::InternalError(String::from_str(ACCESS_KEY_TAKEN)))
            },
            None => {
                proof {
                    self.lemma_no_key(access_key@);
                }
                if self.next_id == u128::MAX {
                    Err(Error::InternalError(String::from_str(IDS_EXHAUSTED)))
                } else {
                    let id: UserId = self.next_id;
                    let user = User { id, username, access_key, is_admin: false };
                    proof {
                        if user_table(self.users@).contains_key(id) {
                            assert(self@.users.contains_key(id));
                        }
                        lemma_push(self.users@, user_key(), user_val(), user);
                    }
                    self.users.push(user);
                    self.next_id = id + 1;
                    Ok(id)
                }
            },
        }
    }

    /// The user with this id, if there is one.
    pub fn find_user(&self, id: UserId) -> (found: Option<User>)
        requires
            self.wf(),
        ensures
            option_view(found) == self@.user(id),
    {
        match self.user_index(id) {
            Some(i) => {
                proof {
                    self.lemma_user_row(i as int);
                }
                Some(self.users[i].duplicate())
            },
            None => {
                proof {
                    self.lemma_no_user(id);
                }
                None
            },
        }
    }

    /// Makes user `id` an admin, or no longer one; says whether the user
    /// exists. Registration never does this.
    pub fn set_admin(&mut self, id: UserId, is_admin: bool) -> (found: bool)
        requires
            old(self).wf(),
        ensures
            final(self).wf(),
            found == old(self)@.users.contains_key(id),
            final(self)@ == if found {
                old(self)@.with_admin(id, is_admin)
            } else {
                old(self)@
            },
    {
        match self.user_index(id) {
            Some(i) => {
                let changed = User {
                    id,
                    username: self.users[i].username.clone(),
                    access_key: self.users[i].access_key.clone(),
                    is_admin,
                };
                proof {
                    self.lemma_user_row(i as int);
                    lemma_update(self.users@, user_key(), user_val(), i as int, changed);
                }
                self.users[i] = changed;
                assert(self@.users == old(self)@.users.insert(id, changed@));
                assert(self@.media == old(self)@.media);
                true
            },
            None => {
                proof {
                    self.lemma_no_user(id);
                }
                false
            },
        }
    }

    /// Whether some file belongs to `owner`.
    pub fn has_media_of(&self, owner: UserId) -> (found: bool)
        requires
            self.wf(),
        ensures
            found == self@.owns_media(owner),
    {
        match self.owned_index(owner) {
            Some(i) => {
                proof {
                    self.lemma_media_row(i as int);
                    assert(self@.owned_file(owner, self.media[i as int].file_name@));
                }
                true
            },
            None => {
                proof {
                    self.lemma_no_media_of(owner);
                }
                false
            },
        }
    }

    /// Deletes the user with this id, if there is one. A user that still
    /// owns a file is not deleted.
    pub fn delete_user(&mut self, id: UserId) -> (r: Result<(), Error>)
        requires
            old(self).wf(),
        ensures
            final(self).wf(),
            (final(self)@, result_view(r)) == old(self)@.delete_user(id),
    {
        if self.has_media_of(id) {
            return Err(Error::InternalError(String::from_str(USER_OWNS_MEDIA)));
        }
        match self.user_index(id) {
            Some(i) => {
                proof {
                    lemma_remove(self.users@, user_key(), user_val(), i as int);
                    assert forall|name: Seq<char>| self@.media.contains_key(name) implies self@.media[name].user_id
                        != id by {
                        assert(!self@.owned_file(id, name));
                    }
                }
                self.users.remove(i);
                assert(self@.users == old(self)@.users.remove(id));
                assert(self@.media == old(self)@.media);
            },
            None => {
                proof {
                    self.lemma_no_user(id);
                    assert(self@.users.remove(id) =~= self@.users);
                }
            },
        }
        Ok(())
    }

    /// Adds a file.
    pub fn create_media(&mut self, file: Media) -> (r: Result<(), Error>)
        requires
            old(self).wf(),
        ensures
            final(self).wf(),
            (final(self)@, result_view(r)) == old(self)@.create_media(file@),
    {
        match self.media_index(file.file_name.as_str()) {
            Some(i) => {
                proof {
                    self.lemma_media_row(i as int);
                }
                return Err(Error::InternalError(String::from_str(FILE_NAME_TAKEN)));
            },
            None => {
                proof {
                    self.lemma_no_media(file.file_name@);
                }
            },
        }
        match self.user_index(file.user_id) {
            Some(i) => {
                proof {
                    self.lemma_user_row(i as int);
                    lemma_push(self.media@, media_key(), media_val(), file);
                }
                self.media.push(file);
                Ok(())
            },
            None => {
                proof {
                    self.lemma_no_user(file.user_id);
                }
                Err(Error::InternalError(String::from_str(OWNER_MISSING)))
            },
        }
    }

    /// The file with this name, if there is one.
    pub fn find_media(&self, name: &str) -> (found: Option<Media>)
        requires
            self.wf(),
        ensures
            option_view(found) == self@.file(name@),
    {
        match self.media_index(name) {
            Some(i) => {
                proof {
                    self.lemma_media_row(i as int);
                }
                Some(self.media[i].duplicate())
            },
            None => {
                proof {
                    self.lemma_no_media(name@);
                }
                None
            },
        }
    }

    /// Deletes the file with this name, if there is one.
    pub fn delete_media(&mut self, name: &str)
        requires
            old(self).wf(),
        ensures
            final(self).wf(),
            final(self)@ == old(self)@.without_media(name@),
    {
        match self.media_index(name) {
            Some(i) => {
                proof {
                    lemma_remove(self.media@, media_key(), media_val(), i as int);
                }
                self.media.remove(i);
                assert(self@.media == old(self)@.media.remove(name@));
                assert(self@.users == old(self)@.users);
            },
            None => {
                proof {
                    self.lemma_no_media(name@);
                    assert(self@.media.remove(name@) =~= self@.media);
                }
            },
        }
    }

    /// Deletes every file of `owner`.
    pub fn delete_media_of(&mut self, owner: UserId)
        requires
            old(self).wf(),
        ensures
            final(self).wf(),
            final(self)@ == old(self)@.without_media_of(owner),
    {
        let ghost before = old(self)@;
        let mut i: usize = 0;
        while i < self.media.len()
            invariant
                i <= self.media.len(),
                self.wf(),
                before.wf(),
                self@.users == before.users,
                self@.next_id == before.next_id,
                not_owned_by(self@.media, owner) == not_owned_by(before.media, owner),
                forall|j: int| 0 <= j < i ==> self.media[j].user_id != owner,
            decreases self.media.len() - i,
        {
            if self.media[i].user_id == owner {
                proof {
                    self.lemma_media_row(i as int);
                    lemma_remove(self.media@, media_key(), media_val(), i as int);
                    let name = self.media[i as int].file_name@;
                    assert(not_owned_by(self@.media.remove(name), owner) =~= not_owned_by(
                        self@.media,
                        owner,
                    ));
                }
                self.media.remove(i);
            } else {
                i += 1;
            }
        }
        proof {
            self.lemma_no_media_of(owner);
        }
    }

    /// Deletes user `id` with all its files: the files first, so that no file
    /// is ever left without its owner.
    pub fn purge_user(&mut self, id: UserId)
        requires
            old(self).wf(),
        ensures
            final(self).wf(),
            final(self)@ == old(self)@.purged(id),
    {
        self.delete_media_of(id);
        proof {
            lemma_nothing_left(old(self)@, id);
        }
        let _ = self.delete_user(id);
    }
}

/// Once the files of a user are gone, the user owns none.
pub proof fn lemma_nothing_left(s: StoreView, id: UserId)
    ensures
        !s.without_media_of(id).owns_media(id),
        s.without_media_of(id).delete_user(id) == (s.purged(id), Ok::<(), ErrorView>(())),
{
    assert forall|name: Seq<char>| !s.without_media_of(id).owned_file(id, name) by {}
}

proof fn lemma_absent_all_users(rows: Seq<User>)
    requires
        rows.len() == 0,
    ensures
        forall|id: UserId| !user_table(rows).contains_key(id),
{
    assert forall|id: UserId| !user_table(rows).contains_key(id) by {
        lemma_absent(rows, user_key(), user_val(), id);
    }
}

proof fn lemma_absent_all_media(rows: Seq<Media>)
    requires
        rows.len() == 0,
    ensures
        forall|name: Seq<char>| !media_table(rows).contains_key(name),
{
    assert forall|name: Seq<char>| !media_table(rows).contains_key(name) by {
        lemma_absent(rows, media_key(), media_val(), name);
    }
}

} // verus!
