//! The decisions of the relational account store: the values it writes for a
//! new account, how it reads rows back, and how it maps the store's outcomes
//! and failures onto the shared error taxonomy. Running the statements is
//! left to the caller.

use vstd::prelude::*;

use crate::account::{copy_text, text_view, views, Account, AccountView, CreateAccountRequest};
use crate::classification::{
    category_text, category_type, lemma_category_text_injective, lemma_type_text_injective,
    type_text, AccountCategory, AccountType,
};
use crate::repository::{
    account_result_view, created_view, ErrorView, RepositoryError, RepositoryResult,
};
use crate::system::{AccountId, Timestamp};

verus! {

/// A row of the accounts table, as the store returns it.
#[derive(Debug, Clone)]
pub struct AccountRow {
    pub id: AccountId,
    pub code: String,
    pub name: String,
    pub account_type: String,
    pub category: String,
    pub description: Option<String>,
    pub is_active: bool,
    pub display_order: i32,
    pub created_at: Timestamp,
    pub updated_at: Timestamp,
}

/// The values that the insert statement of a new account binds; the store
/// fills in `is_active` and both timestamps.
#[derive(Debug, Clone)]
pub struct NewAccountRow {
    pub id: AccountId,
    pub code: String,
    pub name: String,
    pub account_type: String,
    pub category: String,
    pub description: Option<String>,
    pub display_order: i32,
}

/// The values to insert for `request` under identifier `id`: the type is
/// derived from the category, both enumerations are written as their text,
/// and an absent display order is 0.
pub open spec fn insert_values_for(request: CreateAccountRequest, id: AccountId, v: NewAccountRow) -> bool {
    &&& v.id == id
    &&& v.code@ == request.code@
    &&& v.name@ == request.name@
    &&& v.account_type@ == type_text(category_type(request.category))
    &&& v.category@ == category_text(request.category)
    &&& text_view(v.description) == text_view(request.description)
    &&& v.display_order == (match request.display_order {
        Some(d) => d,
        None => 0,
    })
}

/// The row that the store returns for inserted values: the values, active,
/// with both timestamps at the instant of the insert.
pub open spec fn row_of_insert(v: NewAccountRow, now: Timestamp, row: AccountRow) -> bool {
    &&& row.id == v.id
    &&& row.code@ == v.code@
    &&& row.name@ == v.name@
    &&& row.account_type@ == v.account_type@
    &&& row.category@ == v.category@
    &&& text_view(row.description) == text_view(v.description)
    &&& row.is_active
    &&& row.display_order == v.display_order
    &&& row.created_at == now
    &&& row.updated_at == now
}

impl NewAccountRow {
    /// The values to insert for `request` under identifier `id`.
    pub fn from_request(request: &CreateAccountRequest, id: AccountId) -> (r: NewAccountRow)
        ensures
            insert_values_for(*request, id, r),
    {
        NewAccountRow {
            id,
            code: request.code.clone(),
            name: request.name.clone(),
            account_type: request.category.account_type().to_string(),
            category: request.category.to_string(),
            description: copy_text(&request.description),
            display_order: match request.display_order {
                Some(d) => d,
                None => 0,
            },
        }
    }
}

/// The category that a row names.
pub open spec fn row_category(row: AccountRow) -> AccountCategory {
    choose|c: AccountCategory| category_text(c) == row.category@
}

/// A row can be read: it names a category, and the type it names is that
/// category's type.
pub open spec fn row_readable(row: AccountRow) -> bool {
    exists|c: AccountCategory|
        category_text(c) == row.category@ && #[trigger] type_text(category_type(c))
            == row.account_type@
}

/// The account that a readable row holds.
pub open spec fn row_account(row: AccountRow) -> AccountView {
    AccountView {
        id: row.id,
        code: row.code@,
        name: row.name@,
        account_type: category_type(row_category(row)),
        category: row_category(row),
        description: text_view(row.description),
        is_active: row.is_active,
        display_order: row.display_order,
        created_at: row.created_at,
        updated_at: row.updated_at,
    }
}

/// Why a row cannot be read.
pub open spec fn row_error_text(row: AccountRow) -> Seq<char> {
    if forall|t: AccountType| type_text(t) != row.account_type@ {
        "Invalid account type: "@ + row.account_type@
    } else if forall|c: AccountCategory| category_text(c) != row.category@ {
        "Invalid account category: "@ + row.category@
    } else {
        "Account type "@ + row.account_type@ + " does not match category "@ + row.category@
    }
}

/// The outcome of reading one row.
pub open spec fn row_outcome(row: AccountRow) -> Result<AccountView, ErrorView> {
    if row_readable(row) {
        Ok(row_account(row))
    } else {
        Err(ErrorView::ValidationError(row_error_text(row)))
    }
}

impl Account {
    /// Reads an account from a row; a row whose enumeration texts are unknown,
    /// or whose type is not its category's type, fails as a validation error.
    pub fn try_from_row(row: &AccountRow) -> (r: RepositoryResult<Account>)
        ensures
            account_result_view(r) == row_outcome(*row),
    {
        let account_type = match AccountType::from_str(row.account_type.as_str()) {
            Ok(t) => t,
            Err(e) => {
                proof {
                    assert(!row_readable(*row));
                }
                return Err(RepositoryError::ValidationError(e.message()));
            },
        };
        let category = match AccountCategory::from_str(row.category.as_str()) {
            Ok(c) => c,
            Err(e) => {
                proof {
                    assert(!row_readable(*row));
                }
                return Err(RepositoryError::ValidationError(e.message()));
            },
        };
        proof {
            lemma_category_text_injective(category, row_category(*row));
        }
        if category.account_type() != account_type {
            proof {
                assert forall|c: AccountCategory|
                    category_text(c) == row.category@ implies #[trigger] type_text(category_type(c))
                    != row.account_type@ by {
                    lemma_category_text_injective(c, category);
                    lemma_type_text_injective(category_type(c), account_type);
                }
            }
            let message = String::from_str("Account type ").concat(row.account_type.as_str()).concat(
                " does not match category ",
            ).concat(row.category.as_str());
            return Err(RepositoryError::ValidationError(message));
        }
        proof {
            assert(type_text(category_type(category)) == row.account_type@);
        }
        Ok(
            Account {
                id: row.id,
                code: row.code.clone(),
                name: row.name.clone(),
                account_type,
                category,
                description: copy_text(&row.description),
                is_active: row.is_active,
                display_order: row.display_order,
                created_at: row.created_at,
                updated_at: row.updated_at,
            },
        )
    }
}

/// Both stores create the same account: the row that the relational store
/// returns for an insert reads back as the account that the in-memory store
/// creates from the same request, identifier and instant.
pub proof fn lemma_inserted_row_reads_as_created(
    request: CreateAccountRequest,
    id: AccountId,
    now: Timestamp,
    values: NewAccountRow,
    row: AccountRow,
)
    requires
        insert_values_for(request, id, values),
        row_of_insert(values, now, row),
    ensures
        row_outcome(row) == Ok::<AccountView, ErrorView>(created_view(request, id, now)),
{
    assert(category_text(request.category) == row.category@ && type_text(
        category_type(request.category),
    ) == row.account_type@);
    assert(row_readable(row));
    lemma_category_text_injective(request.category, row_category(row));
    assert(row_account(row) =~= created_view(request, id, now));
}

/// Reads the row that a lookup found, if any.
pub fn read_optional_row(row: &Option<AccountRow>) -> (r: RepositoryResult<Option<Account>>)
    ensures
        match row {
            None => r matches Ok(None),
            Some(row) => match row_outcome(*row) {
                Ok(a) => r matches Ok(Some(b)) && b@ == a,
                Err(e) => r matches Err(f) && f@ == e,
            },
        },
{
    match row {
        None => Ok(None),
        Some(row) => match Account::try_from_row(row) {
            Ok(a) => Ok(Some(a)),
            Err(e) => Err(e),
        },
    }
}

/// Reads the rows of a listing: every row, or the failure of the first row
/// that cannot be read.
pub fn read_rows(rows: &Vec<AccountRow>) -> (r: RepositoryResult<Vec<Account>>)
    ensures
        match r {
            Ok(v) => v@.len() == rows@.len() && forall|k: int|
                0 <= k < rows@.len() ==> row_readable(#[trigger] rows@[k]) && views(v@)[k]
                    == row_account(rows@[k]),
            Err(e) => exists|k: int|
                0 <= k < rows@.len() && !row_readable(#[trigger] rows@[k]) && (forall|j: int|
                    0 <= j < k ==> row_readable(#[trigger] rows@[j])) && e@ == ErrorView::ValidationError(
                    row_error_text(rows@[k]),
                ),
        },
{
    let mut out: Vec<Account> = Vec::new();
    let mut i: usize = 0;
    while i < rows.len()
        invariant
            i <= rows@.len(),
            out@.len() == i,
            forall|k: int|
                0 <= k < i ==> row_readable(#[trigger] rows@[k]) && views(out@)[k] == row_account(
                    rows@[k],
                ),
        decreases rows.len() - i,
    {
        match Account::try_from_row(&rows[i]) {
            Ok(a) => {
                out.push(a);
                proof {
                    assert forall|k: int| 0 <= k < i + 1 implies row_readable(#[trigger] rows@[k])
                        && views(out@)[k] == row_account(rows@[k]) by {
                        if k < i {
                            assert(views(out@)[k] == out@[k]@);
                        }
                    }
                }
            },
            Err(e) => {
                proof {
                    assert(!row_readable(rows@[i as int]));
                }
                return Err(e);
            },
        }
        i = i + 1;
    }
    Ok(out)
}

/// The outcome of the update statement: the row it returned, or `NotFound`
/// when no row has the identifier.
pub fn updated_row(id: AccountId, row: &Option<AccountRow>) -> (r: RepositoryResult<Account>)
    ensures
        account_result_view(r) == match row {
            None => Err(ErrorView::NotFound(id)),
            Some(row) => row_outcome(*row),
        },
{
    match row {
        None => Err(RepositoryError::NotFound(id)),
        Some(row) => Account::try_from_row(row),
    }
}

/// The outcome of the deactivation statement: `NotFound` when it touched no
/// row.
pub fn soft_delete_result(id: AccountId, rows_affected: u64) -> (r: RepositoryResult<()>)
    ensures
        rows_affected == 0 ==> (r matches Err(RepositoryError::NotFound(n)) && n == id),
        rows_affected > 0 ==> r is Ok,
{
    if rows_affected == 0 {
        Err(RepositoryError::NotFound(id))
    } else {
        Ok(())
    }
}

/// A failure reported by the store.
#[derive(Debug, Clone)]
pub struct StoreFailure {
    /// The SQLSTATE code, when the failure came from the database itself.
    pub sqlstate: Option<String>,
    /// The database's own message, when the failure came from the database.
    pub message: String,
    /// The full description of the failure.
    pub text: String,
}

/// The SQLSTATE code of a unique-constraint violation.
pub open spec fn unique_violation_state() -> Seq<char> {
    "23505"@
}

/// The failure is a unique-constraint violation.
pub open spec fn is_unique_violation(f: StoreFailure) -> bool {
    f.sqlstate matches Some(s) && s@ == unique_violation_state()
}

/// Maps a store failure onto the taxonomy: a unique-constraint violation is
/// a duplicate code, anything else a database error.
pub fn map_store_error(failure: StoreFailure) -> (r: RepositoryError)
    ensures
        r@ == (if is_unique_violation(failure) {
            ErrorView::DuplicateCode(failure.message@)
        } else {
            ErrorView::DatabaseError(failure.text@)
        }),
{
    let unique = match &failure.sqlstate {
        Some(s) => s.eq(&String::from_str("23505")),
        None => false,
    };
    if unique {
        RepositoryError::DuplicateCode(failure.message)
    } else {
        RepositoryError::DatabaseError(failure.text)
    }
}

} // verus!
