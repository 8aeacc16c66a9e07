use accounting_service::account::CreateAccountRequest;
use accounting_service::classification::{AccountCategory, AccountType};
use accounting_service::relational::{
    map_store_error, read_optional_row, read_rows, soft_delete_result, updated_row, AccountRow,
    NewAccountRow, StoreFailure,
};
use accounting_service::account::Account;
use accounting_service::repository::RepositoryError;

fn row(code: &str, account_type: &str, category: &str) -> AccountRow {
    AccountRow {
        id: 11,
        code: code.to_string(),
        name: "Cash".to_string(),
        account_type: account_type.to_string(),
        category: category.to_string(),
        description: Some("till".to_string()),
        is_active: true,
        display_order: 1,
        created_at: 100,
        updated_at: 200,
    }
}

#[test]
fn insert_values_derive_the_type_and_default_the_order() {
    let request = CreateAccountRequest {
        code: "401".to_string(),
        name: "Tithe".to_string(),
        category: AccountCategory::TitheOffering,
        description: None,
        display_order: None,
    };
    let values = NewAccountRow::from_request(&request, 77);
    assert_eq!(values.id, 77);
    assert_eq!(values.code, "401");
    assert_eq!(values.account_type, "revenue");
    assert_eq!(values.category, "tithe_offering");
    assert_eq!(values.description, None);
    assert_eq!(values.display_order, 0);
}

#[test]
fn row_reads_back_into_an_account() {
    let account = Account::try_from_row(&row("101", "asset", "cash")).unwrap();
    assert_eq!(account.id, 11);
    assert_eq!(account.code, "101");
    assert_eq!(account.account_type, AccountType::Asset);
    assert_eq!(account.category, AccountCategory::Cash);
    assert_eq!(account.description, Some("till".to_string()));
    assert_eq!(account.created_at, 100);
    assert_eq!(account.updated_at, 200);
}

#[test]
fn unknown_texts_are_validation_errors() {
    let e = Account::try_from_row(&row("101", "assets", "cash")).unwrap_err();
    assert!(matches!(e, RepositoryError::ValidationError(ref m) if m == "Invalid account type: assets"));
    let e = Account::try_from_row(&row("101", "asset", "coins")).unwrap_err();
    assert!(matches!(e, RepositoryError::ValidationError(ref m) if m == "Invalid account category: coins"));
    let e = Account::try_from_row(&row("101", "expense", "cash")).unwrap_err();
    assert!(matches!(e, RepositoryError::ValidationError(ref m) if m == "Account type expense does not match category cash"));
}

#[test]
fn optional_rows() {
    assert!(read_optional_row(&None).unwrap().is_none());
    assert_eq!(read_optional_row(&Some(row("101", "asset", "cash"))).unwrap().unwrap().code, "101");
    assert!(read_optional_row(&Some(row("101", "asset", "x"))).is_err());
}

#[test]
fn listing_rows_fail_on_the_first_bad_row() {
    let rows = vec![row("101", "asset", "cash"), row("401", "revenue", "tithe_offering")];
    let accounts = read_rows(&rows).unwrap();
    assert_eq!(accounts.len(), 2);
    assert_eq!(accounts[1].account_type, AccountType::Revenue);
    let rows = vec![row("101", "asset", "cash"), row("x", "nope", "cash"), row("y", "asset", "nope")];
    let e = read_rows(&rows).unwrap_err();
    assert!(matches!(e, RepositoryError::ValidationError(ref m) if m == "Invalid account type: nope"));
    assert!(read_rows(&vec![]).unwrap().is_empty());
}

#[test]
fn missing_updated_row_is_not_found() {
    assert!(matches!(updated_row(5, &None), Err(RepositoryError::NotFound(5))));
    assert_eq!(updated_row(5, &Some(row("101", "asset", "cash"))).unwrap().name, "Cash");
}

#[test]
fn deactivation_touching_no_row_is_not_found() {
    assert!(matches!(soft_delete_result(9, 0), Err(RepositoryError::NotFound(9))));
    assert!(soft_delete_result(9, 1).is_ok());
}

#[test]
fn unique_violation_is_a_duplicate_code() {
    let e = map_store_error(StoreFailure {
        sqlstate: Some("23505".to_string()),
        message: "duplicate key value violates unique constraint".to_string(),
        text: "error returned from database: duplicate key".to_string(),
    });
    assert!(matches!(e, RepositoryError::DuplicateCode(ref m) if m == "duplicate key value violates unique constraint"));
    let e = map_store_error(StoreFailure {
        sqlstate: Some("23503".to_string()),
        message: "foreign key".to_string(),
        text: "error returned from database: foreign key".to_string(),
    });
    assert!(matches!(e, RepositoryError::DatabaseError(ref m) if m == "error returned from database: foreign key"));
    let e = map_store_error(StoreFailure { sqlstate: None, message: String::new(), text: "pool timed out".to_string() });
    assert!(matches!(e, RepositoryError::DatabaseError(ref m) if m == "pool timed out"));
}

#[test]
fn inserted_row_reads_as_the_in_memory_account() {
    let request = CreateAccountRequest {
        code: "601".to_string(),
        name: "Mission".to_string(),
        category: AccountCategory::MissionExpense,
        description: Some("abroad".to_string()),
        display_order: Some(60),
    };
    let values = NewAccountRow::from_request(&request, 5);
    let row = AccountRow {
        id: values.id,
        code: values.code.clone(),
        name: values.name.clone(),
        account_type: values.account_type.clone(),
        category: values.category.clone(),
        description: values.description.clone(),
        is_active: true,
        display_order: values.display_order,
        created_at: 100,
        updated_at: 100,
    };
    let from_store = Account::try_from_row(&row).unwrap();
    let mut repo = accounting_service::in_memory::InMemoryAccountRepository::new();
    let from_memory = repo.create_with_identity(request, 5, 100).unwrap();
    assert_eq!(from_store, from_memory);
}
