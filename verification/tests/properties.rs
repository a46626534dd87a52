use auth_core::errors::AuthError;
use auth_core::flows;
use auth_core::hashing;
use auth_core::session;
use auth_core::store::UserStore;
use auth_core::users::RegisterParams;
use auth_core::app::App;

const JWT_SECRET: &str = "PqRwLF2rhHe8J22oBeHy";
const JWT_TTL: u64 = 604_800;

fn params(email: &str, password: &str, name: &str) -> RegisterParams {
    RegisterParams {
        email: email.to_string(),
        password: password.to_string(),
        name: name.to_string(),
    }
}

#[test]
fn hash_then_verify_round_trips() {
    let hash = hashing::hash_password("s3cret-one").unwrap();

    assert!(hashing::verify_password("s3cret-one", &hash));
    assert_ne!(hash, "s3cret-one");
}

#[test]
fn hash_of_one_password_rejects_another() {
    let hash = hashing::hash_password("s3cret-one").unwrap();

    assert!(!hashing::verify_password("s3cret-two", &hash));
    assert!(!hashing::verify_password("", &hash));
}

#[test]
fn duplicate_email_leaves_first_record_untouched() {
    let mut store = UserStore::new();
    let first = store
        .create_with_password(&params("shared@example.com", "first-pass", "First"))
        .unwrap();

    let second = store.create_with_password(&params("shared@example.com", "second-pass", "Second"));
    assert_eq!(second.unwrap_err(), AuthError::DuplicateEmail);

    let kept = store.find_by_email("shared@example.com").unwrap();
    assert_eq!(kept.name, "First");
    assert_eq!(kept.pid, first.pid);
    assert!(kept.verify_password("first-pass"));
    assert!(!kept.verify_password("second-pass"));
    assert_eq!(store.len(), 1);
}

#[test]
fn verification_token_is_single_use() {
    let mut store = UserStore::new();
    let email = "single_use@example.com";
    store.register(&params(email, "12341234", "Jane"), 10).unwrap();

    let token = store
        .find_by_email(email)
        .unwrap()
        .email_verification_token()
        .unwrap();

    assert!(store.verify_email(&token, 20).is_ok());

    let user = store.find_by_email(email).unwrap();
    assert_eq!(user.email_verified_at, Some(20));
    assert!(user.email_verification_token().is_none());

    // The same, now-cleared, token must be refused on a second attempt.
    assert_eq!(store.verify_email(&token, 30).unwrap_err(), AuthError::InvalidToken);
}

#[test]
fn magic_link_honours_its_window() {
    // TTL is five minutes. Issue at 12:00:00 (43200s into the day):
    // consuming at 12:04:59 succeeds, consuming at 12:05:01 fails.
    let t0: u64 = 43_200;

    let mut store = UserStore::new();
    let email = "window@example.com";
    store.create_with_password(&params(email, "12341234", "Jane")).unwrap();

    let issued = store.magic_link_request(email, t0).unwrap();
    assert_eq!(issued.magic_link_expiration(), Some(43_500));
    let token = issued.magic_link_token().unwrap();
    assert!(store.consume_magic_link(&token, 43_499).is_ok());

    let issued = store.magic_link_request(email, t0).unwrap();
    let token = issued.magic_link_token().unwrap();
    assert_eq!(
        store.consume_magic_link(&token, 43_501).unwrap_err(),
        AuthError::InvalidToken
    );
}

#[test]
fn magic_link_is_single_use() {
    let mut store = UserStore::new();
    let email = "magic_once@example.com";
    store.create_with_password(&params(email, "12341234", "Jane")).unwrap();

    let issued = store.magic_link_request(email, 100).unwrap();
    let token = issued.magic_link_token().unwrap();

    assert!(store.consume_magic_link(&token, 150).is_ok());
    assert_eq!(
        store.consume_magic_link(&token, 151).unwrap_err(),
        AuthError::InvalidToken
    );
}

#[test]
fn reset_changes_password_and_clears_token_together() {
    let mut store = UserStore::new();
    let email = "reset_atomic@example.com";
    let old_password = "old-password";
    store.create_with_password(&params(email, old_password, "Jane")).unwrap();

    let issued = store.forgot_password(email, 10).unwrap();
    let token = issued.reset_token().unwrap();

    assert!(store.reset_password_by_token(&token, "brand-new").is_ok());

    let user = store.find_by_email(email).unwrap();
    assert!(user.verify_password("brand-new"));
    assert!(!user.verify_password(old_password));
    assert!(user.reset_token().is_none());
    assert!(user.reset_sent_at().is_none());
}

#[test]
fn wrong_reset_token_leaves_everything_intact() {
    let mut store = UserStore::new();
    let email = "reset_intact@example.com";
    store.create_with_password(&params(email, "old-password", "Jane")).unwrap();
    store.forgot_password(email, 10).unwrap();

    assert_eq!(
        store
            .reset_password_by_token("not-the-token", "brand-new")
            .unwrap_err(),
        AuthError::InvalidToken
    );

    let user = store.find_by_email(email).unwrap();
    assert!(user.reset_token().is_some());
    assert!(user.reset_sent_at().is_some());
    assert!(user.verify_password("old-password"));
    assert!(!user.verify_password("brand-new"));
}

#[test]
fn truncate_runs_exactly_once() {
    let mut app = App::new();
    let mut store = UserStore::new();
    store.create_with_password(&params("wiped@example.com", "12341234", "Jane")).unwrap();

    // Every caller observes success; only the first actually truncates.
    let first_caller_ran = app.truncate(&mut store);
    assert!(first_caller_ran);
    assert_eq!(store.len(), 0);

    store.create_with_password(&params("kept@example.com", "12341234", "Jane")).unwrap();

    let later_caller_ran = app.truncate(&mut store);
    assert!(!later_caller_ran);
    assert_eq!(store.len(), 1);

    let third_caller_ran = app.truncate(&mut store);
    assert!(!third_caller_ran);
    assert_eq!(store.len(), 1);
}

#[test]
fn session_token_round_trips() {
    let pid = "11111111-2222-3333-4444-555555555555";
    let now: u64 = 1_000_000;

    let token = session::issue(pid, JWT_SECRET, now, JWT_TTL);
    assert_ne!(token, pid);

    // Immediately after issuance the token names its account.
    assert_eq!(session::validate(&token, JWT_SECRET, now).as_deref(), Some(pid));
    // At the expiration moment itself it is still honoured.
    assert_eq!(
        session::validate(&token, JWT_SECRET, now + JWT_TTL).as_deref(),
        Some(pid)
    );
    // Past the expiration moment it is refused.
    assert_eq!(session::validate(&token, JWT_SECRET, now + JWT_TTL + 1), None);
    // Under another secret it is refused.
    assert_eq!(session::validate(&token, "another-secret", now), None);
    // A mangled token is refused.
    assert_eq!(session::validate("not.a.token", JWT_SECRET, now), None);
}

#[test]
fn generated_tokens_have_length_and_charset() {
    let mut store = UserStore::new();
    let user = store
        .register(&params("charset@example.com", "12341234", "Jane"), 10)
        .unwrap();

    let token = user.email_verification_token().unwrap();
    assert_eq!(token.len(), 32);
    assert!(token.chars().all(|c| c.is_ascii_alphanumeric()));
    assert_eq!(user.pid.len(), 36);
}

#[test]
fn login_hides_whether_the_account_exists() {
    let mut store = UserStore::new();
    store
        .create_with_password(&params("present@example.com", "right-password", "Jane"))
        .unwrap();

    let missing = flows::login(&store, "absent@example.com", "right-password", JWT_SECRET, 10, JWT_TTL);
    let wrong = flows::login(&store, "present@example.com", "wrong-password", JWT_SECRET, 10, JWT_TTL);

    // The two failures are indistinguishable.
    assert_eq!(missing.unwrap_err(), wrong.unwrap_err());
}

#[test]
fn current_user_rejects_foreign_and_expired_tokens() {
    let mut store = UserStore::new();
    let user = store
        .create_with_password(&params("session@example.com", "12341234", "Jane"))
        .unwrap();
    let token = user.generate_jwt(JWT_SECRET, 10, 100);

    assert!(flows::current_user(&store, &token, JWT_SECRET, 50).is_ok());
    assert_eq!(
        flows::current_user(&store, &token, JWT_SECRET, 111).unwrap_err(),
        AuthError::Unauthorized
    );
    assert_eq!(
        flows::current_user(&store, &token, "another-secret", 50).unwrap_err(),
        AuthError::Unauthorized
    );
}

#[test]
fn app_version_names_the_build() {
    assert_eq!(App::app_version("0.1.0", Some("0a1b2c3")), "0.1.0 (0a1b2c3)");
    assert_eq!(App::app_version("0.1.0", None), "0.1.0 (dev)");
}

#[test]
fn resend_not_found_is_reported() {
    let mut store = UserStore::new();
    assert_eq!(
        store.resend_verification("nobody@example.com", 10).unwrap_err(),
        AuthError::NotFound
    );
}
