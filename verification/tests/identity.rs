use recordkeeper::error::StoreError;
use recordkeeper::hash::{hash_email, password_digest, to_hex};
use recordkeeper::path::{
    get_app_data_path, get_user_db_path, global_db_path, init_app_data_path, session_path,
    user_db_path, user_dir_path, AppDataPath, StorePath,
};

fn root(text: &str) -> StorePath {
    StorePath { root: text.to_string(), segments: Vec::new() }
}

fn slot_at(text: &str) -> AppDataPath {
    let mut slot = AppDataPath::new();
    assert_eq!(init_app_data_path(&mut slot, Some(text.to_string())), Ok(()));
    slot
}

#[test]
fn hash_email_is_the_sha256_of_the_email_in_hex() {
    assert_eq!(
        hash_email("a@x.com"),
        "478abec7430569163161dfea8513b8ce89d05f559456a26e945c66e1fe55a29d"
    );
    assert_eq!(
        hash_email("b@x.com"),
        "d2e87fa97059800526a17d47411565f78bf08bb07877a806ec7013a04f8e567d"
    );
    assert_eq!(
        hash_email(""),
        "e3b0c44298fc1c149afbf4c8996fb92427ae41e4649b934ca495991b7852b855"
    );
}

#[test]
fn hash_email_is_stable_across_calls() {
    let first = hash_email("someone@example.org");
    let second = hash_email("someone@example.org");
    assert_eq!(first, second);
    assert_ne!(hash_email("someone@example.org"), hash_email("Someone@example.org"));
}

#[test]
fn hash_email_is_a_path_segment() {
    for email in ["a@x.com", "ünï@côde.example", "with/slash@x", "..", ""] {
        let key = hash_email(email);
        assert_eq!(key.len(), 64);
        assert!(key.chars().all(|c| matches!(c, '0'..='9' | 'a'..='f')));
    }
}

#[test]
fn password_digest_is_the_sha256_of_the_password_in_hex() {
    assert_eq!(
        password_digest("pw1"),
        "c592df4a86933b92addc9842402ddf198c638ea9be58916ee6e3734e1e3152f8"
    );
    assert_eq!(
        password_digest("abc"),
        "ba7816bf8f01cfea414140de5dae2223b00361a396177a9cb410ff61f20015ad"
    );
}

#[test]
fn to_hex_writes_two_lower_case_digits_per_byte() {
    assert_eq!(to_hex(&[10, 20, 30]), "0a141e");
    assert_eq!(to_hex(&[0x00, 0xff, 0x9a, 0xa9]), "00ff9aa9");
    assert_eq!(to_hex(&[]), "");
}

#[test]
fn data_root_is_set_once() {
    let mut slot = AppDataPath::new();
    assert_eq!(get_app_data_path(&slot), Err(StoreError::PathUnavailable));
    assert_eq!(init_app_data_path(&mut slot, Some("/data/app".to_string())), Ok(()));
    assert_eq!(get_app_data_path(&slot), Ok(root("/data/app")));
    assert_eq!(
        init_app_data_path(&mut slot, Some("/elsewhere".to_string())),
        Err(StoreError::PathAlreadyInitialized)
    );
    assert_eq!(get_app_data_path(&slot), Ok(root("/data/app")));
}

#[test]
fn data_root_that_the_platform_cannot_resolve_is_unavailable() {
    let mut slot = AppDataPath::new();
    assert_eq!(init_app_data_path(&mut slot, None), Err(StoreError::PathUnavailable));
    assert_eq!(slot, AppDataPath::new());
    assert_eq!(global_db_path(&slot), Err(StoreError::PathUnavailable));
    assert_eq!(session_path(&slot), Err(StoreError::PathUnavailable));
}

#[test]
fn fixed_places_lie_directly_under_the_data_root() {
    let slot = slot_at("/data/app");
    assert_eq!(
        global_db_path(&slot),
        Ok(StorePath { root: "/data/app".to_string(), segments: vec!["app_data.db".to_string()] })
    );
    assert_eq!(
        session_path(&slot),
        Ok(StorePath { root: "/data/app".to_string(), segments: vec![".session".to_string()] })
    );
}

#[test]
fn user_store_lies_under_users_and_the_key() {
    let base = root("/data/app");
    assert_eq!(
        user_dir_path(&base, "k1").segments,
        vec!["users".to_string(), "k1".to_string()]
    );
    assert_eq!(
        user_db_path(&base, "k1").segments,
        vec!["users".to_string(), "k1".to_string(), "user_data.db".to_string()]
    );
    let path = get_user_db_path(&base, "a@x.com");
    assert_eq!(path.root, "/data/app");
    assert_eq!(
        path.segments,
        vec![
            "users".to_string(),
            "478abec7430569163161dfea8513b8ce89d05f559456a26e945c66e1fe55a29d".to_string(),
            "user_data.db".to_string(),
        ]
    );
}

#[test]
fn different_emails_get_different_stores() {
    let base = root("/data/app");
    assert_ne!(get_user_db_path(&base, "a@x.com"), get_user_db_path(&base, "b@x.com"));
    assert_eq!(get_user_db_path(&base, "a@x.com"), get_user_db_path(&base, "a@x.com"));
}

#[test]
fn join_keeps_the_segments_before() {
    let base = StorePath { root: "r".to_string(), segments: vec!["a".to_string()] };
    let further = base.join("b");
    assert_eq!(further.root, "r");
    assert_eq!(further.segments, vec!["a".to_string(), "b".to_string()]);
    assert_eq!(base.clone(), base);
}
