//! The error taxonomy shared by every account store, and the model of a
//! store's contents that the stores' contracts speak of: a sequence of
//! accounts in the order of their creation.

use vstd::prelude::*;

use crate::account::{
    new_account_view, text_view, type_matches_category, AccountView, CreateAccountRequest,
    UpdateAccountRequest,
};
use crate::classification::AccountType;
use crate::system::{hyphenated_text, id_to_text, AccountId, Timestamp};

verus! {

/// Why an operation of an account store failed.
#[derive(Debug, Clone)]
pub enum RepositoryError {
    /// No account, active or deactivated, has this identifier.
    NotFound(AccountId),
    /// An account with this code exists already.
    DuplicateCode(String),
    /// The backing store failed, or gave data that could not be read.
    DatabaseError(String),
    /// The data given breaks a rule of the domain.
    ValidationError(String),
}

/// The mathematical value of a `RepositoryError`.
pub enum ErrorView {
    NotFound(AccountId),
    DuplicateCode(Seq<char>),
    DatabaseError(Seq<char>),
    ValidationError(Seq<char>),
}

impl View for RepositoryError {
    type V = ErrorView;

    open spec fn view(&self) -> ErrorView {
        match self {
            RepositoryError::NotFound(id) => ErrorView::NotFound(*id),
            RepositoryError::DuplicateCode(c) => ErrorView::DuplicateCode(c@),
            RepositoryError::DatabaseError(m) => ErrorView::DatabaseError(m@),
            RepositoryError::ValidationError(m) => ErrorView::ValidationError(m@),
        }
    }
}

pub type RepositoryResult<T> = Result<T, RepositoryError>;

/// The text of each error.
pub open spec fn error_text(e: ErrorView) -> Seq<char> {
    match e {
        ErrorView::NotFound(id) => "Account not found: "@ + hyphenated_text(id),
        ErrorView::DuplicateCode(c) => "Account code already exists: "@ + c,
        ErrorView::DatabaseError(m) => "Database error: "@ + m,
        ErrorView::ValidationError(m) => "Validation error: "@ + m,
    }
}

impl RepositoryError {
    /// A human-readable description of the error.
    pub fn message(&self) -> (r: String)
        ensures
            r@ == error_text(self@),
    {
        match self {
            RepositoryError::NotFound(id) => String::from_str("Account not found: ").concat(
                id_to_text(*id).as_str(),
            ),
            RepositoryError::DuplicateCode(c) => String::from_str(
                "Account code already exists: ",
            ).concat(c.as_str()),
            RepositoryError::DatabaseError(m) => String::from_str("Database error: ").concat(
                m.as_str(),
            ),
            RepositoryError::ValidationError(m) => String::from_str("Validation error: ").concat(
                m.as_str(),
            ),
        }
    }
}

/// The view of the outcome of an operation that yields one account.
pub open spec fn account_result_view(r: RepositoryResult<crate::account::Account>) -> Result<
    AccountView,
    ErrorView,
> {
    match r {
        Ok(a) => Ok(a@),
        Err(e) => Err(e@),
    }
}

/// The view of the outcome of an operation that yields nothing.
pub open spec fn unit_result_view(r: RepositoryResult<()>) -> Result<(), ErrorView> {
    match r {
        Ok(()) => Ok(()),
        Err(e) => Err(e@),
    }
}

/// Some account of the store has this code.
pub open spec fn has_code(s: Seq<AccountView>, code: Seq<char>) -> bool {
    exists|i: int| 0 <= i < s.len() && #[trigger] s[i].code == code
}

/// Some account of the store has this identifier.
pub open spec fn has_id(s: Seq<AccountView>, id: AccountId) -> bool {
    exists|i: int| 0 <= i < s.len() && #[trigger] s[i].id == id
}

/// The position of the account with this identifier.
pub open spec fn index_of_id(s: Seq<AccountView>, id: AccountId) -> int {
    choose|i: int| 0 <= i < s.len() && #[trigger] s[i].id == id
}

/// The position of the account with this code.
pub open spec fn index_of_code(s: Seq<AccountView>, code: Seq<char>) -> int {
    choose|i: int| 0 <= i < s.len() && #[trigger] s[i].code == code
}

/// The invariant of a store: identifiers and codes are unique, and each
/// account's type is the type of its category.
pub open spec fn ledger_wf(s: Seq<AccountView>) -> bool {
    &&& forall|i: int, j: int| 0 <= i < s.len() && 0 <= j < s.len() && i != j ==> #[trigger] s[i].id != #[trigger] s[j].id
    &&& forall|i: int, j: int| 0 <= i < s.len() && 0 <= j < s.len() && i != j ==> #[trigger] s[i].code != #[trigger] s[j].code
    &&& forall|i: int| 0 <= i < s.len() ==> type_matches_category(#[trigger] s[i])
}

/// The account that a create request makes, with its identifier and instant.
pub open spec fn created_view(req: CreateAccountRequest, id: AccountId, now: Timestamp) -> AccountView {
    new_account_view(
        id,
        req.code@,
        req.name@,
        req.category,
        text_view(req.description),
        match req.display_order {
            Some(d) => d,
            None => 0,
        },
        now,
    )
}

/// What creating an account does to a store: a taken code is refused, a taken
/// identifier fails as a store error, and otherwise the new account is added
/// at the end.
pub open spec fn create_outcome(
    before: Seq<AccountView>,
    req: CreateAccountRequest,
    id: AccountId,
    now: Timestamp,
    r: Result<AccountView, ErrorView>,
    after: Seq<AccountView>,
) -> bool {
    if has_code(before, req.code@) {
        r == Err::<AccountView, ErrorView>(ErrorView::DuplicateCode(req.code@)) && after == before
    } else if has_id(before, id) {
        r matches Err(ErrorView::DatabaseError(_)) && after == before
    } else {
        r == Ok::<AccountView, ErrorView>(created_view(req, id, now)) && after == before.push(
            created_view(req, id, now),
        )
    }
}

/// The later of the previous modification instant and the clock's reading, so
/// that modification instants never go backwards.
pub open spec fn refreshed(previous: Timestamp, now: Timestamp) -> Timestamp {
    if now < previous {
        previous
    } else {
        now
    }
}

/// An account after an update: each present field replaces the account's.
pub open spec fn apply_update(a: AccountView, req: UpdateAccountRequest, now: Timestamp) -> AccountView {
    AccountView {
        name: match req.name {
            Some(n) => n@,
            None => a.name,
        },
        description: match req.description {
            Some(d) => Some(d@),
            None => a.description,
        },
        display_order: match req.display_order {
            Some(d) => d,
            None => a.display_order,
        },
        is_active: match req.is_active {
            Some(b) => b,
            None => a.is_active,
        },
        updated_at: refreshed(a.updated_at, now),
        ..a
    }
}

/// An account after deactivation.
pub open spec fn deactivated(a: AccountView, now: Timestamp) -> AccountView {
    AccountView { is_active: false, updated_at: refreshed(a.updated_at, now), ..a }
}

/// What updating an account does to a store.
pub open spec fn update_outcome(
    before: Seq<AccountView>,
    id: AccountId,
    req: UpdateAccountRequest,
    now: Timestamp,
    r: Result<AccountView, ErrorView>,
    after: Seq<AccountView>,
) -> bool {
    if !has_id(before, id) {
        r == Err::<AccountView, ErrorView>(ErrorView::NotFound(id)) && after == before
    } else {
        let i = index_of_id(before, id);
        let a = apply_update(before[i], req, now);
        r == Ok::<AccountView, ErrorView>(a) && after == before.update(i, a)
    }
}

/// What deactivating an account does to a store.
pub open spec fn soft_delete_outcome(
    before: Seq<AccountView>,
    id: AccountId,
    now: Timestamp,
    r: Result<(), ErrorView>,
    after: Seq<AccountView>,
) -> bool {
    if !has_id(before, id) {
        r == Err::<(), ErrorView>(ErrorView::NotFound(id)) && after == before
    } else {
        let i = index_of_id(before, id);
        r == Ok::<(), ErrorView>(()) && after == before.update(i, deactivated(before[i], now))
    }
}

/// Accounts ordered by display order, ties in any order.
pub open spec fn sorted_by_display_order(s: Seq<AccountView>) -> bool {
    forall|i: int, j: int| 0 <= i < j < s.len() ==> #[trigger] s[i].display_order <= #[trigger] s[j].display_order
}

/// The accounts of the store that a listing covers: all of them, or those of
/// one type.
pub open spec fn selection(s: Seq<AccountView>, t: Option<AccountType>) -> Seq<AccountView> {
    match t {
        None => s,
        Some(t) => s.filter(|a: AccountView| a.account_type == t),
    }
}

/// A listing: the selected accounts, each once, ordered by display order.
pub open spec fn is_listing(s: Seq<AccountView>, t: Option<AccountType>, out: Seq<AccountView>) -> bool {
    sorted_by_display_order(out) && out.to_multiset() == selection(s, t).to_multiset()
}

/// A code that the store holds is refused to any later create: once a create
/// has succeeded, a second create with the same code fails with
/// `DuplicateCode` and leaves the store as it was.
pub proof fn lemma_second_create_with_same_code_refused(
    s0: Seq<AccountView>,
    first: CreateAccountRequest,
    id1: AccountId,
    now1: Timestamp,
    r1: Result<AccountView, ErrorView>,
    s1: Seq<AccountView>,
    second: CreateAccountRequest,
    id2: AccountId,
    now2: Timestamp,
    r2: Result<AccountView, ErrorView>,
    s2: Seq<AccountView>,
)
    requires
        create_outcome(s0, first, id1, now1, r1, s1),
        r1 is Ok,
        create_outcome(s1, second, id2, now2, r2, s2),
        second.code@ == first.code@,
    ensures
        r2 == Err::<AccountView, ErrorView>(ErrorView::DuplicateCode(second.code@)),
        s2 == s1,
{
    let k = s0.len() as int;
    assert(s1[k].code == first.code@);
}

/// A create whose code and identifier are both free succeeds, and afterwards
/// the store holds the code.
pub proof fn lemma_create_with_free_code_succeeds(
    s0: Seq<AccountView>,
    req: CreateAccountRequest,
    id: AccountId,
    now: Timestamp,
    r: Result<AccountView, ErrorView>,
    s1: Seq<AccountView>,
)
    requires
        create_outcome(s0, req, id, now, r, s1),
        !has_code(s0, req.code@),
        !has_id(s0, id),
    ensures
        r == Ok::<AccountView, ErrorView>(created_view(req, id, now)),
        has_code(s1, req.code@),
        has_id(s1, id),
{
    let k = s0.len() as int;
    assert(s1[k].code == req.code@);
    assert(s1[k].id == id);
}

/// An account's type is its category's type when it is created, and no
/// update or deactivation changes either.
pub proof fn lemma_type_follows_category(
    req: CreateAccountRequest,
    id: AccountId,
    now: Timestamp,
    a: AccountView,
    update: UpdateAccountRequest,
    later: Timestamp,
)
    ensures
        type_matches_category(created_view(req, id, now)),
        apply_update(a, update, later).account_type == a.account_type,
        apply_update(a, update, later).category == a.category,
        deactivated(a, later).account_type == a.account_type,
        deactivated(a, later).category == a.category,
        type_matches_category(a) ==> type_matches_category(apply_update(a, update, later))
            && type_matches_category(deactivated(a, later)),
{
}

/// An update leaves each absent field as it was, sets each present field to
/// the given value, keeps identity, code, type, category and creation
/// instant, and never moves the modification instant backwards.
pub proof fn lemma_update_fields(a: AccountView, req: UpdateAccountRequest, now: Timestamp)
    ensures
        ({
            let b = apply_update(a, req, now);
            &&& b.id == a.id && b.code == a.code && b.account_type == a.account_type
            &&& b.category == a.category && b.created_at == a.created_at
            &&& b.name == (match req.name {
                Some(n) => n@,
                None => a.name,
            })
            &&& b.description == (match req.description {
                Some(d) => Some(d@),
                None => a.description,
            })
            &&& b.display_order == (match req.display_order {
                Some(d) => d,
                None => a.display_order,
            })
            &&& b.is_active == (match req.is_active {
                Some(x) => x,
                None => a.is_active,
            })
            &&& b.updated_at >= a.updated_at
            &&& b.updated_at >= now
        }),
{
}

/// Deactivation keeps identity, code and category, clears `is_active`, never
/// moves the modification instant backwards, and doing it again leaves the
/// account inactive.
pub proof fn lemma_deactivation(a: AccountView, first: Timestamp, second: Timestamp)
    ensures
        deactivated(a, first).id == a.id,
        deactivated(a, first).code == a.code,
        deactivated(a, first).category == a.category,
        !deactivated(a, first).is_active,
        deactivated(a, first).updated_at >= a.updated_at,
        !deactivated(deactivated(a, first), second).is_active,
        deactivated(deactivated(a, first), second).id == a.id,
        deactivated(deactivated(a, first), second).code == a.code,
        deactivated(deactivated(a, first), second).category == a.category,
{
}

/// A deactivated account stays in the store under its identifier and keeps
/// its code taken.
pub proof fn lemma_deactivated_account_stays(
    s0: Seq<AccountView>,
    id: AccountId,
    now: Timestamp,
    r: Result<(), ErrorView>,
    s1: Seq<AccountView>,
)
    requires
        ledger_wf(s0),
        has_id(s0, id),
        soft_delete_outcome(s0, id, now, r, s1),
    ensures
        r is Ok,
        has_id(s1, id),
        s1[index_of_id(s1, id)] == deactivated(s0[index_of_id(s0, id)], now),
        has_code(s1, s0[index_of_id(s0, id)].code),
{
    let i = index_of_id(s0, id);
    assert(s1[i].id == id);
    assert(s1[i].code == s0[i].code);
    let j = index_of_id(s1, id);
    if j != i {
        assert(s1[j].id == s0[j].id);
        assert(s0[j].id != s0[i].id);
    }
}

} // verus!
