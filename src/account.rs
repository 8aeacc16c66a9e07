//! The account entity, the create and update requests with their field
//! rules, and the response shape of an account.

use vstd::prelude::*;

use crate::classification::{category_type, AccountCategory, AccountType};
use crate::system::{current_timestamp, fresh_account_id, AccountId, Timestamp};

verus! {

/// The view of an optional text.
pub open spec fn text_view(o: Option<String>) -> Option<Seq<char>> {
    match o {
        Some(s) => Some(s@),
        None => None,
    }
}

/// A copy of an optional text.
pub fn copy_text(o: &Option<String>) -> (r: Option<String>)
    ensures
        text_view(r) == text_view(*o),
{
    match o {
        Some(s) => Some(s.clone()),
        None => None,
    }
}

/// A ledger account of the chart of accounts.
#[derive(Debug, Clone, PartialEq, Eq)]
pub struct Account {
    pub id: AccountId,
    pub code: String,
    pub name: String,
    pub account_type: AccountType,
    pub category: AccountCategory,
    pub description: Option<String>,
    pub is_active: bool,
    pub display_order: i32,
    pub created_at: Timestamp,
    pub updated_at: Timestamp,
}

/// The mathematical value of an `Account`.
pub struct AccountView {
    pub id: AccountId,
    pub code: Seq<char>,
    pub name: Seq<char>,
    pub account_type: AccountType,
    pub category: AccountCategory,
    pub description: Option<Seq<char>>,
    pub is_active: bool,
    pub display_order: i32,
    pub created_at: Timestamp,
    pub updated_at: Timestamp,
}

impl View for Account {
    type V = AccountView;

    open spec fn view(&self) -> AccountView {
        AccountView {
            id: self.id,
            code: self.code@,
            name: self.name@,
            account_type: self.account_type,
            category: self.category,
            description: text_view(self.description),
            is_active: self.is_active,
            display_order: self.display_order,
            created_at: self.created_at,
            updated_at: self.updated_at,
        }
    }
}

/// The views of a sequence of accounts.
pub open spec fn views(v: Seq<Account>) -> Seq<AccountView> {
    v.map_values(|a: Account| a@)
}

/// An account's type is the type of its category.
pub open spec fn type_matches_category(a: AccountView) -> bool {
    a.account_type == category_type(a.category)
}

/// A freshly created account: type derived from the category, active, and
/// both timestamps at the instant of creation.
pub open spec fn new_account_view(
    id: AccountId,
    code: Seq<char>,
    name: Seq<char>,
    category: AccountCategory,
    description: Option<Seq<char>>,
    display_order: i32,
    now: Timestamp,
) -> AccountView {
    AccountView {
        id,
        code,
        name,
        account_type: category_type(category),
        category,
        description,
        is_active: true,
        display_order,
        created_at: now,
        updated_at: now,
    }
}

impl Account {
    /// Creates an account with a fresh random identifier, stamped with the
    /// current instant.
    pub fn new(
        code: String,
        name: String,
        category: AccountCategory,
        description: Option<String>,
        display_order: i32,
    ) -> (r: Account)
        ensures
            r@ == new_account_view(
                r.id,
                code@,
                name@,
                category,
                text_view(description),
                display_order,
                r.created_at,
            ),
    {
        let id = fresh_account_id();
        let now = current_timestamp();
        Account::with_identity(id, now, code, name, category, description, display_order)
    }

    /// Creates an account with the given identifier and creation instant.
    pub fn with_identity(
        id: AccountId,
        now: Timestamp,
        code: String,
        name: String,
        category: AccountCategory,
        description: Option<String>,
        display_order: i32,
    ) -> (r: Account)
        ensures
            r@ == new_account_view(
                id,
                code@,
                name@,
                category,
                text_view(description),
                display_order,
                now,
            ),
    {
        Account {
            id,
            code,
            name,
            account_type: category.account_type(),
            category,
            description,
            is_active: true,
            display_order,
            created_at: now,
            updated_at: now,
        }
    }

    /// A copy of this account.
    pub fn duplicate(&self) -> (r: Account)
        ensures
            r@ == self@,
    {
        Account {
            id: self.id,
            code: self.code.clone(),
            name: self.name.clone(),
            account_type: self.account_type,
            category: self.category,
            description: copy_text(&self.description),
            is_active: self.is_active,
            display_order: self.display_order,
            created_at: self.created_at,
            updated_at: self.updated_at,
        }
    }
}

/// The fields of a new account.
#[derive(Debug, Clone)]
pub struct CreateAccountRequest {
    pub code: String,
    pub name: String,
    pub category: AccountCategory,
    pub description: Option<String>,
    pub display_order: Option<i32>,
}

/// The fields of an account to overwrite: a present field replaces the
/// account's, an absent one leaves it as it is.
#[derive(Debug, Clone)]
pub struct UpdateAccountRequest {
    pub name: Option<String>,
    pub description: Option<String>,
    pub display_order: Option<i32>,
    pub is_active: Option<bool>,
}

/// A field of a request that breaks its rule.
#[derive(Debug, Clone, Copy, PartialEq, Eq, Structural)]
pub enum FieldViolation {
    /// The code is not 3 to 10 characters long.
    CodeLength,
    /// The code holds a character other than an ASCII letter, digit or hyphen.
    CodeCharacters,
    /// The name is not 1 to 100 characters long.
    NameLength,
    /// The description is longer than 500 characters.
    DescriptionLength,
}

/// Bounds of the field lengths, in characters.
pub const CODE_MIN_LEN: usize = 3;
pub const CODE_MAX_LEN: usize = 10;
pub const NAME_MIN_LEN: usize = 1;
pub const NAME_MAX_LEN: usize = 100;
pub const DESCRIPTION_MAX_LEN: usize = 500;

/// A character that an account code may hold.
pub open spec fn is_code_char(c: char) -> bool {
    ('a' <= c && c <= 'z') || ('A' <= c && c <= 'Z') || ('0' <= c && c <= '9') || c == '-'
}

pub open spec fn code_length_ok(s: Seq<char>) -> bool {
    CODE_MIN_LEN <= s.len() <= CODE_MAX_LEN
}

/// The code is non-empty and made of letters, digits and hyphens only.
pub open spec fn code_chars_ok(s: Seq<char>) -> bool {
    s.len() > 0 && forall|i: int| 0 <= i < s.len() ==> is_code_char(#[trigger] s[i])
}

pub open spec fn name_length_ok(s: Seq<char>) -> bool {
    NAME_MIN_LEN <= s.len() <= NAME_MAX_LEN
}

pub open spec fn description_ok(d: Option<Seq<char>>) -> bool {
    match d {
        Some(t) => t.len() <= DESCRIPTION_MAX_LEN,
        None => true,
    }
}

/// `v` when the rule holds, nothing otherwise.
pub open spec fn unless(ok: bool, v: FieldViolation) -> Seq<FieldViolation> {
    if ok {
        Seq::empty()
    } else {
        seq![v]
    }
}

/// Every broken rule of a create request, in field order.
pub open spec fn create_violations(req: CreateAccountRequest) -> Seq<FieldViolation> {
    unless(code_length_ok(req.code@), FieldViolation::CodeLength) + unless(
        code_chars_ok(req.code@),
        FieldViolation::CodeCharacters,
    ) + unless(name_length_ok(req.name@), FieldViolation::NameLength) + unless(
        description_ok(text_view(req.description)),
        FieldViolation::DescriptionLength,
    )
}

/// Every broken rule of an update request, in field order: the rules hold
/// of the present fields only.
pub open spec fn update_violations(req: UpdateAccountRequest) -> Seq<FieldViolation> {
    unless(
        match req.name {
            Some(n) => name_length_ok(n@),
            None => true,
        },
        FieldViolation::NameLength,
    ) + unless(description_ok(text_view(req.description)), FieldViolation::DescriptionLength)
}

/// Whether the length of `s` in characters lies in `lo..=hi`.
fn length_within(s: &String, lo: usize, hi: usize) -> (r: bool)
    ensures
        r == (lo <= s@.len() <= hi),
{
    let n = s.as_str().unicode_len();
    lo <= n && n <= hi
}

/// Whether `s` is non-empty and made of code characters only.
fn only_code_chars(s: &String) -> (r: bool)
    ensures
        r == code_chars_ok(s@),
{
    let n = s.as_str().unicode_len();
    if n == 0 {
        return false;
    }
    let mut ok = true;
    for c in it: s.as_str().chars()
        invariant
            it.seq() == s@,
            ok == (forall|j: int| 0 <= j < it.index() ==> is_code_char(#[trigger] s@[j])),
    {
        let this = ('a' <= c && c <= 'z') || ('A' <= c && c <= 'Z') || ('0' <= c && c <= '9') || c
            == '-';
        ok = ok && this;
    }
    ok
}

/// Appends `v` to `out` when `ok` is false.
fn note(out: &mut Vec<FieldViolation>, ok: bool, v: FieldViolation)
    ensures
        final(out)@ == old(out)@ + unless(ok, v),
{
    if !ok {
        out.push(v);
    }
    assert(final(out)@ =~= old(out)@ + unless(ok, v));
}

impl CreateAccountRequest {
    /// Checks the field rules; on failure lists every broken rule.
    pub fn validate(&self) -> (r: Result<(), Vec<FieldViolation>>)
        ensures
            r is Ok <==> create_violations(*self).len() == 0,
            r matches Err(v) ==> v@ == create_violations(*self),
    {
        let mut out: Vec<FieldViolation> = Vec::new();
        note(&mut out, length_within(&self.code, CODE_MIN_LEN, CODE_MAX_LEN), FieldViolation::CodeLength);
        note(&mut out, only_code_chars(&self.code), FieldViolation::CodeCharacters);
        note(&mut out, length_within(&self.name, NAME_MIN_LEN, NAME_MAX_LEN), FieldViolation::NameLength);
        let description_fits = match &self.description {
            Some(d) => length_within(d, 0, DESCRIPTION_MAX_LEN),
            None => true,
        };
        note(&mut out, description_fits, FieldViolation::DescriptionLength);
        assert(out@ =~= create_violations(*self));
        if out.len() == 0 {
            Ok(())
        } else {
            Err(out)
        }
    }
}

impl UpdateAccountRequest {
    /// Checks the field rules of the present fields; on failure lists every
    /// broken rule.
    pub fn validate(&self) -> (r: Result<(), Vec<FieldViolation>>)
        ensures
            r is Ok <==> update_violations(*self).len() == 0,
            r matches Err(v) ==> v@ == update_violations(*self),
    {
        let mut out: Vec<FieldViolation> = Vec::new();
        let name_fits = match &self.name {
            Some(n) => length_within(n, NAME_MIN_LEN, NAME_MAX_LEN),
            None => true,
        };
        note(&mut out, name_fits, FieldViolation::NameLength);
        let description_fits = match &self.description {
            Some(d) => length_within(d, 0, DESCRIPTION_MAX_LEN),
            None => true,
        };
        note(&mut out, description_fits, FieldViolation::DescriptionLength);
        assert(out@ =~= update_violations(*self));
        if out.len() == 0 {
            Ok(())
        } else {
            Err(out)
        }
    }
}

/// The text of each rule.
pub open spec fn violation_text(v: FieldViolation) -> Seq<char> {
    match v {
        FieldViolation::CodeLength => "code must be 3 to 10 characters long"@,
        FieldViolation::CodeCharacters => "code may hold only letters, digits and hyphens"@,
        FieldViolation::NameLength => "name must be 1 to 100 characters long"@,
        FieldViolation::DescriptionLength => "description must be at most 500 characters long"@,
    }
}

/// The texts of the violations, separated by `; `.
pub open spec fn joined_violations(vs: Seq<FieldViolation>) -> Seq<char>
    decreases vs.len(),
{
    if vs.len() == 0 {
        Seq::empty()
    } else if vs.len() == 1 {
        violation_text(vs[0])
    } else {
        joined_violations(vs.drop_last()) + "; "@ + violation_text(vs.last())
    }
}

impl FieldViolation {
    /// The text of the broken rule.
    pub fn message(&self) -> (r: &'static str)
        ensures
            r@ == violation_text(*self),
    {
        match self {
            FieldViolation::CodeLength => "code must be 3 to 10 characters long",
            FieldViolation::CodeCharacters => "code may hold only letters, digits and hyphens",
            FieldViolation::NameLength => "name must be 1 to 100 characters long",
            FieldViolation::DescriptionLength => "description must be at most 500 characters long",
        }
    }
}

/// The report of a failed validation: `Validation failed: ` and the texts of
/// the violations.
pub fn describe_violations(vs: &Vec<FieldViolation>) -> (r: String)
    ensures
        r@ == "Validation failed: "@ + joined_violations(vs@),
{
    let mut out = String::from_str("Validation failed: ");
    let mut i: usize = 0;
    while i < vs.len()
        invariant
            i <= vs@.len(),
            out@ == "Validation failed: "@ + joined_violations(vs@.take(i as int)),
        decreases vs.len() - i,
    {
        let ghost before = out@;
        if i > 0 {
            out.append("; ");
        }
        out.append(vs[i].message());
        proof {
            let t = vs@.take(i as int + 1);
            assert(t.drop_last() =~= vs@.take(i as int));
            assert(t.last() == vs@[i as int]);
            if i == 0 {
                assert(joined_violations(vs@.take(0)) =~= Seq::<char>::empty());
                assert(before + violation_text(vs@[0]) =~= "Validation failed: "@ + violation_text(vs@[0]));
            } else {
                assert(out@ =~= "Validation failed: "@ + (joined_violations(t.drop_last()) + "; "@ + violation_text(t.last())));
            }
        }
        i = i + 1;
    }
    assert(vs@.take(vs@.len() as int) =~= vs@);
    out
}

/// The outward shape of an account.
#[derive(Debug, Clone, PartialEq, Eq)]
pub struct AccountResponse {
    pub id: AccountId,
    pub code: String,
    pub name: String,
    pub account_type: AccountType,
    pub category: AccountCategory,
    pub description: Option<String>,
    pub is_active: bool,
    pub display_order: i32,
    pub created_at: Timestamp,
    pub updated_at: Timestamp,
}

impl From<Account> for AccountResponse {
    fn from(account: Account) -> AccountResponse {
        AccountResponse {
            id: account.id,
            code: account.code,
            name: account.name,
            account_type: account.account_type,
            category: account.category,
            description: account.description,
            is_active: account.is_active,
            display_order: account.display_order,
            created_at: account.created_at,
            updated_at: account.updated_at,
        }
    }
}

impl vstd::std_specs::convert::FromSpecImpl<Account> for AccountResponse {
    open spec fn obeys_from_spec() -> bool {
        true
    }

    open spec fn from_spec(account: Account) -> AccountResponse {
        AccountResponse {
            id: account.id,
            code: account.code,
            name: account.name,
            account_type: account.account_type,
            category: account.category,
            description: account.description,
            is_active: account.is_active,
            display_order: account.display_order,
            created_at: account.created_at,
            updated_at: account.updated_at,
        }
    }
}

} // verus!
