use auth_core::errors::AuthError;
use auth_core::store::UserStore;
use auth_core::tokens::{MAGIC_LINK_EXPIRATION_MIN, MAGIC_LINK_LENGTH};
use auth_core::users::RegisterParams;

fn params(email: &str, password: &str, name: &str) -> RegisterParams {
    RegisterParams {
        email: email.to_string(),
        password: password.to_string(),
        name: name.to_string(),
    }
}

#[test]
fn can_create_with_password() {
    let mut store = UserStore::new();
    let p = params("test@framework.com", "1234", "framework");

    let res = store.create_with_password(&p);

    assert!(res.is_ok());
    let user = res.unwrap();
    assert_eq!(user.email, "test@framework.com");
    assert_eq!(user.name, "framework");
    assert!(user.email_verified_at.is_none());
    assert!(user.email_verification_token().is_none());
    assert!(user.email_verification_sent_at().is_none());
    assert!(user.reset_token().is_none());
    assert!(user.reset_sent_at().is_none());
    assert!(user.magic_link_token().is_none());
    assert!(user.verify_password("1234"));
    assert_ne!(user.password_hash, "1234");
}

#[test]
fn handle_create_with_password_with_duplicate() {
    let mut store = UserStore::new();
    let new_user = store
        .create_with_password(&params("first@example.com", "87654321", "First"))
        .unwrap();

    let duplicate_user =
        store.create_with_password(&params(&new_user.email, "3221", "John"));

    assert_eq!(duplicate_user.unwrap_err(), AuthError::DuplicateEmail);
}

#[test]
fn can_find_by_email() {
    let mut store = UserStore::new();
    let p = params("can_find_by_email@example.com", "12341234", "John Doe");
    let user = store.create_with_password(&p).unwrap();

    let existing_user = store.find_by_email(&user.email);
    let non_existing_user_results = store.find_by_email("un@existing-email.com");

    assert!(existing_user.is_ok());
    assert_eq!(existing_user.unwrap().email, "can_find_by_email@example.com");
    assert_eq!(non_existing_user_results.unwrap_err(), AuthError::NotFound);
}

#[test]
fn can_find_by_pid() {
    let mut store = UserStore::new();
    let p = params("can_find_by_pid@example.com", "12341234", "John Doe");
    let user = store.create_with_password(&p).unwrap();

    let existing_user = store.find_by_pid(&user.pid);
    let non_existing_user_results =
        store.find_by_pid("23232323-2323-2323-2323-232323232323");

    assert!(existing_user.is_ok());
    assert_eq!(existing_user.unwrap().email, "can_find_by_pid@example.com");
    assert_eq!(non_existing_user_results.unwrap_err(), AuthError::NotFound);
}

#[test]
fn can_verification_token() {
    let mut store = UserStore::new();
    let mut user = store
        .create_with_password(&params("verification@example.com", "12341234", "Jane"))
        .unwrap();

    assert!(user.email_verification_sent_at().is_none());
    assert!(user.email_verification_token().is_none());

    user.set_email_verification_sent(100);

    assert!(user.email_verification_sent_at().is_some());
    assert!(user.email_verification_token().is_some());
}

#[test]
fn can_set_forgot_password_sent() {
    let mut store = UserStore::new();
    let mut user = store
        .create_with_password(&params("forgot@example.com", "12341234", "Jane"))
        .unwrap();

    assert!(user.reset_sent_at().is_none());
    assert!(user.reset_token().is_none());

    user.set_forgot_password_sent(100);

    assert!(user.reset_sent_at().is_some());
    assert!(user.reset_token().is_some());
}

#[test]
fn can_verified() {
    let mut store = UserStore::new();
    let mut user = store
        .create_with_password(&params("verified@example.com", "12341234", "Jane"))
        .unwrap();

    assert!(user.email_verified_at.is_none());

    user.verified(100);

    assert!(user.email_verified_at.is_some());
}

#[test]
fn users_can_reset_password() {
    let mut store = UserStore::new();
    let password = "0ldPassw0rd";
    let mut user = store
        .create_with_password(&params("reset@example.com", password, "Jane"))
        .unwrap();

    assert!(user.verify_password(password));

    assert!(user.reset_password("new-password").is_ok());

    assert!(user.verify_password("new-password"));
}

#[test]
fn magic_link() {
    let mut store = UserStore::new();
    let user = store
        .create_with_password(&params("magic@example.com", "12341234", "Jane"))
        .unwrap();

    assert!(
        user.magic_link_token().is_none(),
        "Magic link token should be initially unset"
    );
    assert!(
        user.magic_link_expiration().is_none(),
        "Magic link expiration should be initially unset"
    );

    let now: u64 = 43_200;
    let updated_user = store.magic_link_request(&user.email, now);
    let updated_user = updated_user.expect("Failed to refetch user after magic link creation");

    assert!(
        updated_user.magic_link_token().is_some(),
        "Magic link token should be set after creation"
    );

    let magic_link_token = updated_user.magic_link_token().unwrap();
    assert_eq!(
        magic_link_token.len(),
        MAGIC_LINK_LENGTH,
        "Magic link token length does not match expected length"
    );

    assert!(
        updated_user.magic_link_expiration().is_some(),
        "Magic link expiration should be set after creation"
    );

    let should_expired_at = now + MAGIC_LINK_EXPIRATION_MIN * 60;
    let actual_expiration = updated_user.magic_link_expiration().unwrap();

    assert!(
        actual_expiration >= now,
        "Magic link expiration should be in the future or now"
    );

    assert!(
        actual_expiration <= should_expired_at,
        "Magic link expiration exceeds expected maximum expiration time"
    );
}
