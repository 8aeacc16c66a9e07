use accounting_service::account::FieldViolation;
use accounting_service::common::HealthResponse;
use accounting_service::handlers::{
    account_not_found, map_repo_error, validation_failure, ErrorClass, ErrorResponse,
};
use accounting_service::repository::RepositoryError;

#[test]
fn test_get_account_not_found() {
    let id = 0x67e5_5044_10b1_426f_9247_bb68_0e5f_e0c8u128;
    let (status, body) = account_not_found(id);
    assert_eq!(status, 404);
    assert_eq!(body.code, "NOT_FOUND");
    assert_eq!(body.error, "Account not found: 67e55044-10b1-426f-9247-bb680e5fe0c8");
}

#[test]
fn each_error_has_its_class() {
    let (status, body) = map_repo_error(&RepositoryError::DuplicateCode("101".to_string()));
    assert_eq!(status, 409);
    assert_eq!(body.code, "DUPLICATE_CODE");
    assert_eq!(body.error, "Account code already exists: 101");

    let (status, body) = map_repo_error(&RepositoryError::ValidationError("bad".to_string()));
    assert_eq!(status, 400);
    assert_eq!(body.code, "VALIDATION_ERROR");
    assert_eq!(body.error, "bad");

    let (status, body) = map_repo_error(&RepositoryError::DatabaseError("down".to_string()));
    assert_eq!(status, 500);
    assert_eq!(body.code, "DATABASE_ERROR");
    assert_eq!(body.error, "down");

    assert_eq!(RepositoryError::NotFound(1).class(), ErrorClass::NotFound);
}

#[test]
fn error_messages() {
    assert_eq!(
        RepositoryError::NotFound(1).message(),
        "Account not found: 00000000-0000-0000-0000-000000000001"
    );
    assert_eq!(RepositoryError::DuplicateCode("101".to_string()).message(), "Account code already exists: 101");
    assert_eq!(RepositoryError::DatabaseError("x".to_string()).message(), "Database error: x");
    assert_eq!(RepositoryError::ValidationError("y".to_string()).message(), "Validation error: y");
}

#[test]
fn validation_failure_is_bad_input() {
    let (status, body) = validation_failure(&vec![FieldViolation::CodeCharacters]);
    assert_eq!(status, 400);
    assert_eq!(body.code, "VALIDATION_ERROR");
    assert_eq!(body.error, "Validation failed: code may hold only letters, digits and hyphens");
}

#[test]
fn error_response_new_keeps_fields() {
    let r = ErrorResponse::new("boom".to_string(), "DATABASE_ERROR".to_string());
    assert_eq!(r.error, "boom");
    assert_eq!(r.code, "DATABASE_ERROR");
}

#[test]
fn health_is_ok() {
    assert_eq!(HealthResponse::ok().status, "OK");
}

#[test]
fn echo_greets() {
    assert_eq!(accounting_service::common::echo_reply("world"), "Hello world");
    assert_eq!(accounting_service::common::echo_reply(""), "Hello ");
}

use accounting_service::account::{AccountResponse, CreateAccountRequest, UpdateAccountRequest};
use accounting_service::classification::{AccountCategory, AccountType};
use accounting_service::in_memory::InMemoryAccountRepository;

fn cash_request(description: Option<&str>) -> CreateAccountRequest {
    CreateAccountRequest {
        code: "101".to_string(),
        name: "現金".to_string(),
        category: AccountCategory::Cash,
        description: description.map(|d| d.to_string()),
        display_order: Some(1),
    }
}

#[test]
fn test_create_account_success() {
    let mut repo = InMemoryAccountRepository::new();
    let request = cash_request(Some("手許現金"));
    assert!(request.validate().is_ok());
    let account = AccountResponse::from(repo.create(request).unwrap());
    assert_eq!(account.code, "101");
    assert_eq!(account.name, "現金");
    assert_eq!(account.account_type, AccountType::Asset);
}

#[test]
fn test_list_accounts() {
    let mut repo = InMemoryAccountRepository::new();
    let _ = repo.create(cash_request(None)).unwrap();
    let accounts = repo.find_all().unwrap();
    assert_eq!(accounts.len(), 1);
}

#[test]
fn test_list_accounts_by_type() {
    let mut repo = InMemoryAccountRepository::new();
    let _ = repo.create(cash_request(None)).unwrap();
    let _ = repo
        .create(CreateAccountRequest {
            code: "401".to_string(),
            name: "什一献金".to_string(),
            category: AccountCategory::TitheOffering,
            description: None,
            display_order: Some(10),
        })
        .unwrap();
    let filter = AccountType::from_str("asset").unwrap();
    let accounts = repo.find_by_type(filter).unwrap();
    assert_eq!(accounts.len(), 1);
    assert_eq!(accounts[0].code, "101");
}

#[test]
fn account_handlers_test_update_account() {
    let mut repo = InMemoryAccountRepository::new();
    let created = repo.create(cash_request(None)).unwrap();
    let request = UpdateAccountRequest {
        name: Some("小口現金".to_string()),
        description: Some("小口経費用".to_string()),
        display_order: None,
        is_active: None,
    };
    assert!(request.validate().is_ok());
    let updated = repo.update(created.id, request).unwrap();
    assert_eq!(updated.name, "小口現金");
}

#[test]
fn test_delete_account() {
    let mut repo = InMemoryAccountRepository::new();
    let created = repo.create(cash_request(None)).unwrap();
    assert!(repo.soft_delete(created.id).is_ok());
    let account = repo.find_by_id(created.id).unwrap().unwrap();
    assert!(!account.is_active);
}
