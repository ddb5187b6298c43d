use todo_auth::auth::AuthUseCase;
use todo_auth::config::JwtConfig;
use todo_auth::error::UseCaseError;
use todo_auth::model::{CreateTodoRequest, SigninRequest, SignupRequest, UtcTime};
use todo_auth::store::MemoryStore;
use todo_auth::todo::TodoUseCase;
use todo_auth::token::{encode, Claims};

fn jwt() -> JwtConfig {
    JwtConfig { issuer: "todo_auth".to_string(), secret: "s3cret-key".to_string(), expire: 3600 }
}

fn signup_req(a: &str, p: &str, q: &str) -> SignupRequest {
    SignupRequest { account: a.to_string(), password: p.to_string(), confirmed_password: q.to_string() }
}

fn signin_req(a: &str, p: &str) -> SigninRequest {
    SigninRequest { account: a.to_string(), password: p.to_string() }
}

fn due() -> UtcTime {
    UtcTime::new(1_700_000_000, 0).unwrap()
}

#[test]
fn scenario_alice() {
    let uc = AuthUseCase::new(jwt());
    let mut store = MemoryStore::new();
    let r = store.signup(&uc, signup_req("alice", "pw123", "pw123")).unwrap();
    assert_eq!(r.account, "alice");
    let again = store.signup(&uc, signup_req("alice", "pw456", "pw456"));
    assert!(matches!(again, Err(UseCaseError::AccountIdExists)));
    let token = store.signin(&uc, signin_req("alice", "pw123")).unwrap().token;
    assert_eq!(store.authenticate(&uc, &token).unwrap(), "alice");
    let wrong = store.signin(&uc, signin_req("alice", "wrong"));
    assert!(matches!(wrong, Err(UseCaseError::Unauthorized)));
}

#[test]
fn second_signup_of_same_account_is_refused() {
    let uc = AuthUseCase::new(jwt());
    let mut store = MemoryStore::new();
    assert!(store.signup(&uc, signup_req("bob", "a", "a")).is_ok());
    let r = store.signup(&uc, signup_req("bob", "b", "b"));
    assert!(matches!(r, Err(UseCaseError::AccountIdExists)));
    assert_eq!(store.members.len(), 1);
}

#[test]
fn signup_with_mismatched_passwords_is_bad_request() {
    let uc = AuthUseCase::new(jwt());
    let mut store = MemoryStore::new();
    let r = store.signup(&uc, signup_req("carol", "p", "q"));
    match r {
        Err(UseCaseError::BadRequest(why)) => assert_eq!(why, "Password confirmation does not match"),
        _ => panic!("expected BadRequest"),
    }
    assert!(store.members.is_empty());
    assert!(store.open.is_none());
}

#[test]
fn signup_stores_a_hash_not_the_password() {
    let uc = AuthUseCase::new(jwt());
    let mut store = MemoryStore::new();
    store.signup(&uc, signup_req("dave", "plain-pw", "plain-pw")).unwrap();
    assert_eq!(store.members[0].account, "dave");
    assert_ne!(store.members[0].password, "plain-pw");
    assert!(todo_auth::password::verify("plain-pw", &store.members[0].password));
}

#[test]
fn signin_with_wrong_password_is_unauthorized() {
    let uc = AuthUseCase::new(jwt());
    let mut store = MemoryStore::new();
    store.signup(&uc, signup_req("erin", "right", "right")).unwrap();
    assert!(matches!(store.signin(&uc, signin_req("erin", "wrong")), Err(UseCaseError::Unauthorized)));
    assert!(store.signin(&uc, signin_req("erin", "right")).is_ok());
}

#[test]
fn signin_of_unknown_account_is_unauthorized() {
    let uc = AuthUseCase::new(jwt());
    let mut store = MemoryStore::new();
    assert!(matches!(store.signin(&uc, signin_req("nobody", "x")), Err(UseCaseError::Unauthorized)));
}

#[test]
fn authenticate_round_trip() {
    let uc = AuthUseCase::new(jwt());
    let mut store = MemoryStore::new();
    store.signup(&uc, signup_req("frank", "pw", "pw")).unwrap();
    let token = store.signin(&uc, signin_req("frank", "pw")).unwrap().token;
    assert_eq!(store.authenticate(&uc, &token).unwrap(), "frank");
}

#[test]
fn authenticate_expired_token_is_unauthorized() {
    let uc = AuthUseCase::new(jwt());
    let mut store = MemoryStore::new();
    store.signup(&uc, signup_req("gina", "pw", "pw")).unwrap();
    let claims = Claims::issue("gina", "todo_auth", 1_000_000, 60, "id-1".to_string());
    let token = encode(&claims, "s3cret-key").unwrap();
    assert!(matches!(store.authenticate(&uc, &token), Err(UseCaseError::Unauthorized)));
}

#[test]
fn authenticate_token_of_other_secret_or_issuer_is_unauthorized() {
    let uc = AuthUseCase::new(jwt());
    let mut store = MemoryStore::new();
    store.signup(&uc, signup_req("hank", "pw", "pw")).unwrap();
    let good = Claims::new("hank", "todo_auth", 3600);
    let other_secret = encode(&good, "another-secret").unwrap();
    assert!(matches!(store.authenticate(&uc, &other_secret), Err(UseCaseError::Unauthorized)));
    let other_issuer = encode(&Claims::new("hank", "someone-else", 3600), "s3cret-key").unwrap();
    assert!(matches!(store.authenticate(&uc, &other_issuer), Err(UseCaseError::Unauthorized)));
    let right = encode(&good, "s3cret-key").unwrap();
    assert_eq!(store.authenticate(&uc, &right).unwrap(), "hank");
}

#[test]
fn authenticate_garbage_or_deleted_account_is_unauthorized() {
    let uc = AuthUseCase::new(jwt());
    let mut store = MemoryStore::new();
    assert!(matches!(store.authenticate(&uc, "not.a.token"), Err(UseCaseError::Unauthorized)));
    let token = encode(&Claims::new("ivy", "todo_auth", 3600), "s3cret-key").unwrap();
    assert!(matches!(store.authenticate(&uc, &token), Err(UseCaseError::Unauthorized)));
}

#[test]
fn created_task_is_found_with_equal_fields() {
    let uc = TodoUseCase::new();
    let mut store = MemoryStore::new();
    let dto = CreateTodoRequest {
        account: "alice".to_string(),
        due_date: due(),
        content: "buy milk".to_string(),
        complete: false,
    };
    let made = store.create_todo(&uc, dto).unwrap();
    assert_ne!(made.id, 0);
    assert_eq!(made.account, "alice");
    assert_eq!(made.content, "buy milk");
    assert!(!made.complete);
    assert_eq!(made.due_date, due());
    let found = store.find_todo(&uc, made.id).unwrap().unwrap();
    assert_eq!(found.id, made.id);
    assert_eq!(found.account, made.account);
    assert_eq!(found.due_date, made.due_date);
    assert_eq!(found.content, made.content);
    assert_eq!(found.complete, made.complete);
}

#[test]
fn tasks_get_distinct_ids() {
    let uc = TodoUseCase::new();
    let mut store = MemoryStore::new();
    let mk = |c: &str| CreateTodoRequest { account: "a".to_string(), due_date: due(), content: c.to_string(), complete: true };
    let first = store.create_todo(&uc, mk("one")).unwrap();
    let second = store.create_todo(&uc, mk("two")).unwrap();
    assert_eq!(first.id, 1);
    assert_eq!(second.id, 2);
    assert_eq!(store.find_todo(&uc, 2).unwrap().unwrap().content, "two");
}

#[test]
fn find_missing_task_is_none() {
    let uc = TodoUseCase::new();
    let mut store = MemoryStore::new();
    assert!(store.find_todo(&uc, 42).unwrap().is_none());
    assert!(store.open.is_none());
}

#[test]
fn authenticate_at_follows_the_token_expiry() {
    let uc = AuthUseCase::new(jwt());
    let mut store = MemoryStore::new();
    store.signup(&uc, signup_req("lee", "pw", "pw")).unwrap();
    let claims = Claims::issue("lee", "todo_auth", 5000, 3600, "id".to_string());
    let token = encode(&claims, "s3cret-key").unwrap();
    assert_eq!(store.authenticate_at(&uc, &token, 8630).unwrap(), "lee");
    assert!(matches!(store.authenticate_at(&uc, &token, 8631), Err(UseCaseError::Unauthorized)));
    let other = encode(&Claims::issue("nobody", "todo_auth", 5000, 3600, "id".to_string()), "s3cret-key").unwrap();
    assert!(matches!(store.authenticate_at(&uc, &other, 5000), Err(UseCaseError::Unauthorized)));
}
