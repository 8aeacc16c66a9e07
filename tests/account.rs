use accounting_service::account::{
    describe_violations, Account, AccountResponse, CreateAccountRequest, FieldViolation,
    UpdateAccountRequest,
};
use accounting_service::classification::{AccountCategory, AccountType};

fn create_request(code: &str, name: &str, description: Option<&str>) -> CreateAccountRequest {
    CreateAccountRequest {
        code: code.to_string(),
        name: name.to_string(),
        category: AccountCategory::Cash,
        description: description.map(|d| d.to_string()),
        display_order: None,
    }
}

#[test]
fn test_account_new() {
    let account = Account::new(
        "101".to_string(),
        "現金".to_string(),
        AccountCategory::Cash,
        Some("手許現金".to_string()),
        1,
    );

    assert_eq!(account.code, "101");
    assert_eq!(account.name, "現金");
    assert_eq!(account.account_type, AccountType::Asset);
    assert_eq!(account.category, AccountCategory::Cash);
    assert!(account.is_active);
}

#[test]
fn new_account_stamps_both_instants_alike() {
    let account = Account::new("401".to_string(), "Tithe".to_string(), AccountCategory::TitheOffering, None, 10);
    assert_eq!(account.created_at, account.updated_at);
    assert_eq!(account.account_type, AccountType::Revenue);
    assert_eq!(account.display_order, 10);
    assert_eq!(account.description, None);
}

#[test]
fn with_identity_uses_the_given_identity() {
    let account = Account::with_identity(
        7,
        1_700_000_000_000_000,
        "501".to_string(),
        "Salaries".to_string(),
        AccountCategory::PersonnelExpense,
        None,
        3,
    );
    assert_eq!(account.id, 7);
    assert_eq!(account.created_at, 1_700_000_000_000_000);
    assert_eq!(account.updated_at, 1_700_000_000_000_000);
    assert_eq!(account.account_type, AccountType::Expense);
}

#[test]
fn duplicate_is_equal() {
    let account = Account::new("101".to_string(), "Cash".to_string(), AccountCategory::Cash, Some("d".to_string()), 1);
    assert_eq!(account.duplicate(), account);
}

#[test]
fn test_create_account_validation_error() {
    let request = create_request("x", "", None);
    let errors = request.validate().unwrap_err();
    assert_eq!(errors, vec![FieldViolation::CodeLength, FieldViolation::NameLength]);
}

#[test]
fn valid_create_request_passes() {
    assert!(create_request("101", "Cash", Some("petty cash")).validate().is_ok());
    assert!(create_request("AB-12", "x", None).validate().is_ok());
    assert!(create_request("1234567890", &"n".repeat(100), Some(&"d".repeat(500))).validate().is_ok());
}

#[test]
fn code_length_bounds() {
    assert_eq!(create_request("12", "Cash", None).validate().unwrap_err(), vec![FieldViolation::CodeLength]);
    assert_eq!(
        create_request("12345678901", "Cash", None).validate().unwrap_err(),
        vec![FieldViolation::CodeLength]
    );
    assert!(create_request("123", "Cash", None).validate().is_ok());
}

#[test]
fn code_characters_are_letters_digits_and_hyphens() {
    assert_eq!(create_request("10_1", "Cash", None).validate().unwrap_err(), vec![FieldViolation::CodeCharacters]);
    assert_eq!(create_request("10 1", "Cash", None).validate().unwrap_err(), vec![FieldViolation::CodeCharacters]);
    assert_eq!(create_request("現金口座", "Cash", None).validate().unwrap_err(), vec![FieldViolation::CodeCharacters]);
    assert_eq!(
        create_request("", "Cash", None).validate().unwrap_err(),
        vec![FieldViolation::CodeLength, FieldViolation::CodeCharacters]
    );
}

#[test]
fn lengths_count_characters_not_bytes() {
    let name = "現".repeat(100);
    assert!(create_request("101", &name, None).validate().is_ok());
    let name = "現".repeat(101);
    assert_eq!(create_request("101", &name, None).validate().unwrap_err(), vec![FieldViolation::NameLength]);
}

#[test]
fn description_limit() {
    let long = "d".repeat(501);
    assert_eq!(
        create_request("101", "Cash", Some(&long)).validate().unwrap_err(),
        vec![FieldViolation::DescriptionLength]
    );
}

#[test]
fn update_request_checks_present_fields_only() {
    let empty = UpdateAccountRequest { name: None, description: None, display_order: None, is_active: None };
    assert!(empty.validate().is_ok());
    let bad = UpdateAccountRequest {
        name: Some(String::new()),
        description: Some("d".repeat(501)),
        display_order: Some(5),
        is_active: Some(false),
    };
    assert_eq!(bad.validate().unwrap_err(), vec![FieldViolation::NameLength, FieldViolation::DescriptionLength]);
}

#[test]
fn violations_are_described_in_order() {
    let text = describe_violations(&vec![FieldViolation::CodeLength, FieldViolation::NameLength]);
    assert_eq!(
        text,
        "Validation failed: code must be 3 to 10 characters long; name must be 1 to 100 characters long"
    );
    assert_eq!(describe_violations(&vec![]), "Validation failed: ");
}

#[test]
fn response_carries_every_field() {
    let account = Account::with_identity(9, 5, "101".to_string(), "Cash".to_string(), AccountCategory::Cash, None, 2);
    let response = AccountResponse::from(account.clone());
    assert_eq!(response.id, 9);
    assert_eq!(response.code, "101");
    assert_eq!(response.name, "Cash");
    assert_eq!(response.account_type, AccountType::Asset);
    assert_eq!(response.category, AccountCategory::Cash);
    assert!(response.is_active);
    assert_eq!(response.display_order, 2);
    assert_eq!(response.created_at, 5);
}
