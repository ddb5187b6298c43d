use todo_auth::auth::{AuthUseCase, AuthenticateFlow, SignupStage};
use todo_auth::config::JwtConfig;
use todo_auth::error::UseCaseError;
use todo_auth::flow::{Action, Event, Step};
use todo_auth::model::{MemberEntity, SigninRequest, SignupRequest, UtcTime, CreateTodoRequest};
use todo_auth::todo::TodoUseCase;

fn uc() -> AuthUseCase {
    AuthUseCase::new(JwtConfig { issuer: "iss".to_string(), secret: "k".to_string(), expire: 60 })
}

#[test]
fn signup_flow_asks_begin_select_insert_commit() {
    let (mut flow, step) = uc().signup(SignupRequest {
        account: "zed".to_string(),
        password: "pw".to_string(),
        confirmed_password: "pw".to_string(),
    });
    assert!(matches!(step, Step::Perform(Action::Begin)));
    match flow.resume(Event::Begun) {
        Step::Perform(Action::SelectMember(a)) => assert_eq!(a, "zed"),
        _ => panic!("expected a select"),
    }
    let inserted = match flow.resume(Event::MemberSelected(None)) {
        Step::Perform(Action::InsertMember(m)) => m,
        _ => panic!("expected an insert"),
    };
    assert_eq!(inserted.account, "zed");
    assert_ne!(inserted.password, "pw");
    assert!(matches!(flow.resume(Event::MemberInserted(inserted)), Step::Perform(Action::Commit)));
    match flow.resume(Event::Committed) {
        Step::Done(Ok(r)) => assert_eq!(r.account, "zed"),
        _ => panic!("expected success"),
    }
    assert!(matches!(flow.stage, SignupStage::Finished));
}

#[test]
fn signup_flow_rolls_back_when_the_store_fails() {
    let (mut flow, _) = uc().signup(SignupRequest {
        account: "zed".to_string(),
        password: "pw".to_string(),
        confirmed_password: "pw".to_string(),
    });
    flow.resume(Event::Begun);
    assert!(matches!(flow.resume(Event::Failed("disk full".to_string())), Step::Perform(Action::Rollback)));
    match flow.resume(Event::RolledBack) {
        Step::Done(Err(UseCaseError::Infrastructure(why))) => assert_eq!(why, "disk full"),
        _ => panic!("expected an infrastructure error"),
    }
}

#[test]
fn signup_flow_reports_failed_begin_without_rollback() {
    let (mut flow, _) = uc().signup(SignupRequest {
        account: "zed".to_string(),
        password: "pw".to_string(),
        confirmed_password: "pw".to_string(),
    });
    assert!(matches!(flow.resume(Event::Failed("no connection".to_string())), Step::Done(Err(UseCaseError::Infrastructure(_)))));
}

#[test]
fn answer_out_of_order_is_an_infrastructure_error() {
    let (mut flow, _) = uc().signin(SigninRequest { account: "a".to_string(), password: "b".to_string() });
    match flow.resume(Event::Committed) {
        Step::Done(Err(UseCaseError::Infrastructure(why))) => assert_eq!(why, "store answered out of order"),
        _ => panic!("expected an infrastructure error"),
    }
}

#[test]
fn signin_flow_closes_its_transaction_before_answering() {
    let (mut flow, _) = uc().signin(SigninRequest { account: "a".to_string(), password: "b".to_string() });
    flow.resume(Event::Begun);
    assert!(matches!(flow.resume(Event::MemberSelected(None)), Step::Perform(Action::Rollback)));
    assert!(matches!(flow.resume(Event::RolledBack), Step::Done(Err(UseCaseError::Unauthorized))));
}

#[test]
fn signin_flow_with_malformed_stored_hash_is_unauthorized() {
    let (mut flow, _) = uc().signin(SigninRequest { account: "a".to_string(), password: "b".to_string() });
    flow.resume(Event::Begun);
    let stored = MemberEntity { account: "a".to_string(), password: "not-a-hash".to_string() };
    flow.resume(Event::MemberSelected(Some(stored)));
    assert!(matches!(flow.resume(Event::RolledBack), Step::Done(Err(UseCaseError::Unauthorized))));
}

#[test]
fn authenticate_flow_returns_the_stored_account() {
    let (mut flow, step) = AuthenticateFlow::from_subject(Some("kim".to_string()));
    assert!(matches!(step, Step::Perform(Action::Begin)));
    flow.resume(Event::Begun);
    let stored = MemberEntity { account: "kim".to_string(), password: "h".to_string() };
    assert!(matches!(flow.resume(Event::MemberSelected(Some(stored))), Step::Perform(Action::Rollback)));
    match flow.resume(Event::RolledBack) {
        Step::Done(Ok(a)) => assert_eq!(a, "kim"),
        _ => panic!("expected the account"),
    }
}

#[test]
fn authenticate_flow_without_subject_is_unauthorized() {
    let (_, step) = AuthenticateFlow::from_subject(None);
    assert!(matches!(step, Step::Done(Err(UseCaseError::Unauthorized))));
}

#[test]
fn create_flow_rolls_back_on_failed_insert() {
    let (mut flow, _) = TodoUseCase::new().create(CreateTodoRequest {
        account: "a".to_string(),
        due_date: UtcTime::new(5, 7).unwrap(),
        content: "c".to_string(),
        complete: false,
    });
    match flow.resume(Event::Begun) {
        Step::Perform(Action::InsertTodo(e)) => {
            assert_eq!(e.id, 0);
            assert_eq!(e.content, "c");
        }
        _ => panic!("expected an insert"),
    }
    assert!(matches!(flow.resume(Event::Failed("x".to_string())), Step::Perform(Action::Rollback)));
    assert!(matches!(flow.resume(Event::RolledBack), Step::Done(Err(UseCaseError::Infrastructure(_)))));
}

#[test]
fn find_flow_commits_even_when_absent() {
    let (mut flow, _) = TodoUseCase::new().find(9);
    assert!(matches!(flow.resume(Event::Begun), Step::Perform(Action::SelectTodo(9))));
    assert!(matches!(flow.resume(Event::TodoSelected(None)), Step::Perform(Action::Commit)));
    assert!(matches!(flow.resume(Event::Committed), Step::Done(Ok(None))));
}
