use media_host::access::{
    authenticate, authorize_media_delete, authorize_user_delete, check_invite, issue_access_key,
    media_for_upload, parse_target, plan_upload, require_admin, select_file, serve_media,
    target_of,
};
use media_host::messages::{
    ACCESS_KEY_TAKEN, FILE_NAME_TAKEN, OWNER_MISSING, UNKNOWN_FILE_TYPE, USER_OWNS_MEDIA,
};
use media_host::model::{Config, Download, Error, FormField, Media, User};
use media_host::sniff::FileKind;
use media_host::store::Store;
use media_host::text::same_text;

fn user(id: u128, is_admin: bool) -> User {
    User { id, username: format!("user{id}"), access_key: format!("key{id}"), is_admin }
}

fn media(name: &str, owner: u128) -> Media {
    Media {
        file_name: name.to_string(),
        content: vec![1, 2, 3],
        mime_type: "image/png".to_string(),
        user_id: owner,
    }
}

fn internal(text: &str) -> Error {
    Error::InternalError(text.to_string())
}

#[test]
fn each_error_has_its_status_and_its_words() {
    let bad = Error::BadRequest("no file".to_string());
    let denied = Error::Unauthorized("no key".to_string());
    let failed = Error::InternalError("connection reset by peer".to_string());
    assert_eq!(bad.status(), 400);
    assert_eq!(denied.status(), 401);
    assert_eq!(Error::NotFound.status(), 404);
    assert_eq!(failed.status(), 500);
    assert_eq!(bad.message(), "no file");
    assert_eq!(denied.message(), "no key");
    assert_eq!(Error::NotFound.message(), "not found.");
    assert_eq!(failed.message(), "internal error.");
}

#[test]
fn same_text_compares_exactly() {
    assert!(same_text("abc", "abc"));
    assert!(same_text("", ""));
    assert!(!same_text("abc", "abd"));
    assert!(!same_text("abc", "ab"));
    assert!(!same_text("abc", "ABC"));
}

#[test]
fn authenticate_passes_the_holder_on() {
    assert_eq!(authenticate(Some(user(3, false))), Ok(user(3, false)));
    assert_eq!(authenticate(None), Err(Error::Unauthorized("invalid access key.".to_string())));
}

#[test]
fn select_file_finds_the_first_field_named_file() {
    let fields = vec![
        FormField { name: None, content: Some(vec![9]) },
        FormField { name: Some("File".to_string()), content: Some(vec![8]) },
        FormField { name: Some("file".to_string()), content: Some(vec![7, 7]) },
        FormField { name: Some("file".to_string()), content: None },
    ];
    assert_eq!(select_file(fields), Ok(vec![7, 7]));
}

#[test]
fn media_for_upload_joins_name_and_extension() {
    let kind = FileKind { mime_type: "image/jpeg".to_string(), extension: "jpg".to_string() };
    assert_eq!(
        media_for_upload(5, vec![1, 2], Some(kind), "abcdefgh12345678"),
        Ok(Media {
            file_name: "abcdefgh12345678.jpg".to_string(),
            content: vec![1, 2],
            mime_type: "image/jpeg".to_string(),
            user_id: 5,
        })
    );
    assert_eq!(
        media_for_upload(5, vec![1, 2], None, "abcdefgh12345678"),
        Err(Error::BadRequest(UNKNOWN_FILE_TYPE.to_string()))
    );
}

#[test]
fn plan_upload_detects_the_type_from_the_bytes() {
    let gif = b"GIF89a\x01\x00\x01\x00".to_vec();
    let field = FormField { name: Some("file".to_string()), content: Some(gif.clone()) };
    let row = plan_upload(9, vec![field]).unwrap();
    assert_eq!(row.mime_type, "image/gif");
    assert!(row.file_name.ends_with(".gif"));
    assert_eq!(row.file_name.len(), 16 + 4);
    assert_eq!(row.content, gif);
    assert_eq!(row.user_id, 9);

    let pdf = b"%PDF-1.7 and so on".to_vec();
    let field = FormField { name: Some("file".to_string()), content: Some(pdf) };
    let row = plan_upload(9, vec![field]).unwrap();
    assert_eq!(row.mime_type, "application/pdf");
    assert!(row.file_name.ends_with(".pdf"));
}

#[test]
fn serve_media_hands_out_bytes_and_type() {
    assert_eq!(
        serve_media(Some(media("a.png", 1))),
        Ok(Download { content_type: "image/png".to_string(), body: vec![1, 2, 3] })
    );
    assert_eq!(serve_media(None), Err(Error::NotFound));
}

#[test]
fn authorize_media_delete_wants_owner_or_admin() {
    let file = Some(media("a.png", 1));
    assert_eq!(authorize_media_delete(&user(1, false), &file), Ok(()));
    assert_eq!(authorize_media_delete(&user(2, true), &file), Ok(()));
    assert_eq!(authorize_media_delete(&user(1, true), &file), Ok(()));
    assert!(matches!(
        authorize_media_delete(&user(2, false), &file),
        Err(Error::Unauthorized(_))
    ));
    assert_eq!(authorize_media_delete(&user(2, false), &None), Err(Error::NotFound));
    assert_eq!(authorize_media_delete(&user(2, true), &None), Err(Error::NotFound));
}

#[test]
fn check_invite_wants_the_exact_key() {
    let config = Config { invite_key: "secret".to_string() };
    assert_eq!(check_invite(&config, "secret"), Ok(()));
    assert!(matches!(check_invite(&config, "Secret"), Err(Error::Unauthorized(_))));
    assert!(matches!(check_invite(&config, "secret "), Err(Error::Unauthorized(_))));
    assert!(matches!(check_invite(&config, ""), Err(Error::Unauthorized(_))));
}

#[test]
fn issue_access_key_draws_sixty_four_alphanumerics() {
    let config = Config { invite_key: "secret".to_string() };
    let first = issue_access_key(&config, "secret").unwrap();
    let second = issue_access_key(&config, "secret").unwrap();
    assert_eq!(first.len(), 64);
    assert_eq!(second.len(), 64);
    assert!(first.chars().all(|c| c.is_ascii_alphanumeric()));
    assert!(second.chars().all(|c| c.is_ascii_alphanumeric()));
    assert_ne!(first, second);
    assert!(matches!(issue_access_key(&config, "wrong"), Err(Error::Unauthorized(_))));
}

#[test]
fn require_admin_looks_at_the_flag() {
    assert_eq!(require_admin(&user(1, true)), Ok(()));
    assert!(matches!(require_admin(&user(1, false)), Err(Error::Unauthorized(_))));
}

#[test]
fn parse_target_reads_the_value_of_a_uuid() {
    assert_eq!(
        parse_target("a1a2a3a4-b1b2-c1c2-d1d2-d3d4d5d6d7d8"),
        Ok(0xa1a2a3a4b1b2c1c2d1d2d3d4d5d6d7d8)
    );
    assert_eq!(parse_target("00000000-0000-0000-0000-000000000000"), Ok(0));
    assert_eq!(
        parse_target("urn:uuid:00000000-0000-0000-0000-00000000002a"),
        Ok(42)
    );
    assert!(matches!(parse_target("a1a2a3a4-b1b2-c1c2-d1d2"), Err(Error::BadRequest(_))));
    assert!(matches!(parse_target("42"), Err(Error::BadRequest(_))));
}

#[test]
fn target_of_keeps_the_message_of_the_parser() {
    assert_eq!(target_of(Ok(7)), Ok(7));
    assert_eq!(
        target_of(Err("invalid length".to_string())),
        Err(Error::BadRequest("invalid length".to_string()))
    );
}

#[test]
fn authorize_user_delete_spares_admins() {
    assert_eq!(authorize_user_delete(&Some(user(4, false))), Ok(4));
    assert!(matches!(
        authorize_user_delete(&Some(user(4, true))),
        Err(Error::Unauthorized(_))
    ));
    assert_eq!(authorize_user_delete(&None), Err(Error::NotFound));
}

#[test]
fn store_gives_out_ids_in_order() {
    let mut store = Store::new();
    assert_eq!(store.create_user("alice".to_string(), "ka".to_string()), Ok(0));
    assert_eq!(store.create_user("bob".to_string(), "kb".to_string()), Ok(1));
    assert_eq!(store.delete_user(1), Ok(()));
    assert_eq!(store.create_user("carol".to_string(), "kc".to_string()), Ok(2));
    assert_eq!(store.find_user(1), None);
    assert_eq!(
        store.find_user(2),
        Some(User {
            id: 2,
            username: "carol".to_string(),
            access_key: "kc".to_string(),
            is_admin: false
        })
    );
    assert_eq!(store.resolve("ka").unwrap().id, 0);
    assert_eq!(store.resolve("kb"), None);
}

#[test]
fn store_refuses_a_second_holder_of_an_access_key() {
    let mut store = Store::new();
    assert_eq!(store.create_user("alice".to_string(), "k".to_string()), Ok(0));
    assert_eq!(
        store.create_user("bob".to_string(), "k".to_string()),
        Err(internal(ACCESS_KEY_TAKEN))
    );
    assert_eq!(store.resolve("k").unwrap().username, "alice");
    assert_eq!(store.create_user("alice".to_string(), "k2".to_string()), Ok(1));
}

#[test]
fn store_refuses_a_second_file_of_the_same_name() {
    let mut store = Store::new();
    let owner = store.create_user("alice".to_string(), "k".to_string()).unwrap();
    assert_eq!(store.create_media(media("a.png", owner)), Ok(()));
    let mut other = media("a.png", owner);
    other.content = vec![9, 9];
    assert_eq!(store.create_media(other), Err(internal(FILE_NAME_TAKEN)));
    assert_eq!(store.find_media("a.png").unwrap().content, vec![1, 2, 3]);
}

#[test]
fn store_refuses_a_file_without_an_owner() {
    let mut store = Store::new();
    assert_eq!(store.create_media(media("a.png", 5)), Err(internal(OWNER_MISSING)));
    assert_eq!(store.find_media("a.png"), None);
}

#[test]
fn store_keeps_a_user_who_owns_files() {
    let mut store = Store::new();
    let owner = store.create_user("alice".to_string(), "k".to_string()).unwrap();
    store.create_media(media("a.png", owner)).unwrap();
    assert_eq!(store.delete_user(owner), Err(internal(USER_OWNS_MEDIA)));
    assert!(store.find_user(owner).is_some());
    store.delete_media("a.png");
    assert_eq!(store.delete_user(owner), Ok(()));
    assert_eq!(store.find_user(owner), None);
    assert_eq!(store.delete_user(owner), Ok(()));
}

#[test]
fn store_deletes_the_files_of_one_owner_only() {
    let mut store = Store::new();
    let alice = store.create_user("alice".to_string(), "ka".to_string()).unwrap();
    let bob = store.create_user("bob".to_string(), "kb".to_string()).unwrap();
    store.create_media(media("a1.png", alice)).unwrap();
    store.create_media(media("b1.png", bob)).unwrap();
    store.create_media(media("a2.png", alice)).unwrap();
    store.create_media(media("a3.png", alice)).unwrap();
    store.create_media(media("b2.png", bob)).unwrap();
    store.delete_media_of(alice);
    assert!(!store.has_media_of(alice));
    assert!(store.has_media_of(bob));
    assert_eq!(store.find_media("a1.png"), None);
    assert_eq!(store.find_media("a2.png"), None);
    assert_eq!(store.find_media("a3.png"), None);
    assert_eq!(store.find_media("b1.png"), Some(media("b1.png", bob)));
    assert_eq!(store.find_media("b2.png"), Some(media("b2.png", bob)));
    store.delete_media_of(alice);
    assert!(store.has_media_of(bob));
}

#[test]
fn store_purges_a_user_with_its_files() {
    let mut store = Store::new();
    let alice = store.create_user("alice".to_string(), "ka".to_string()).unwrap();
    let bob = store.create_user("bob".to_string(), "kb".to_string()).unwrap();
    store.create_media(media("a1.png", alice)).unwrap();
    store.create_media(media("b1.png", bob)).unwrap();
    store.purge_user(alice);
    assert_eq!(store.find_user(alice), None);
    assert_eq!(store.find_media("a1.png"), None);
    assert!(store.find_user(bob).is_some());
    assert!(store.find_media("b1.png").is_some());
    store.purge_user(77);
    assert!(store.find_user(bob).is_some());
}

#[test]
fn store_sets_and_clears_the_admin_flag() {
    let mut store = Store::new();
    let alice = store.create_user("alice".to_string(), "ka".to_string()).unwrap();
    assert!(store.set_admin(alice, true));
    let found = store.resolve("ka").unwrap();
    assert!(found.is_admin);
    assert_eq!(found.username, "alice");
    assert_eq!(found.id, alice);
    assert!(store.set_admin(alice, false));
    assert!(!store.find_user(alice).unwrap().is_admin);
    assert!(!store.set_admin(99, true));
    assert_eq!(store.find_user(99), None);
}
