//! Account types, account categories, the fixed mapping between them, and
//! their stable text encodings.

use vstd::prelude::*;

verus! {

/// The five elements of double-entry bookkeeping.
#[derive(Debug, Clone, Copy, PartialEq, Eq, Structural, Hash)]
pub enum AccountType {
    Asset,
    Liability,
    Equity,
    Revenue,
    Expense,
}

/// Whether balances of this type grow on the debit side.
pub open spec fn debit_increases(t: AccountType) -> bool {
    t == AccountType::Asset || t == AccountType::Expense
}

impl AccountType {
    /// Asset and Expense accounts increase on the debit side.
    pub fn is_debit_increase(&self) -> (r: bool)
        ensures
            r == debit_increases(*self),
    {
        match self {
            AccountType::Asset | AccountType::Expense => true,
            _ => false,
        }
    }

    /// Liability, Equity and Revenue accounts increase on the credit side.
    pub fn is_credit_increase(&self) -> (r: bool)
        ensures
            r == !debit_increases(*self),
    {
        !self.is_debit_increase()
    }
}

/// Errors of decoding: the text names no member of the enumeration.
#[derive(Debug, Clone)]
pub enum InvalidEnumValue {
    AccountType(String),
    AccountCategory(String),
}

impl InvalidEnumValue {
    /// The text that failed to decode.
    pub fn value(&self) -> (r: &String)
        ensures
            r@ == invalid_text(*self),
    {
        match self {
            InvalidEnumValue::AccountType(v) => v,
            InvalidEnumValue::AccountCategory(v) => v,
        }
    }

    /// A human-readable description of the failure.
    pub fn message(&self) -> (r: String)
        ensures
            r@ == invalid_message(*self),
    {
        match self {
            InvalidEnumValue::AccountType(v) => String::from_str("Invalid account type: ").concat(v.as_str()),
            InvalidEnumValue::AccountCategory(v) => String::from_str("Invalid account category: ").concat(
                v.as_str(),
            ),
        }
    }
}

/// The text that an `InvalidEnumValue` carries.
pub open spec fn invalid_text(e: InvalidEnumValue) -> Seq<char> {
    match e {
        InvalidEnumValue::AccountType(v) => v@,
        InvalidEnumValue::AccountCategory(v) => v@,
    }
}

/// The message of an `InvalidEnumValue`.
pub open spec fn invalid_message(e: InvalidEnumValue) -> Seq<char> {
    match e {
        InvalidEnumValue::AccountType(v) => "Invalid account type: "@ + v@,
        InvalidEnumValue::AccountCategory(v) => "Invalid account category: "@ + v@,
    }
}

/// Character-by-character equality of two texts.
fn same_text(a: &str, b: &str) -> (r: bool)
    ensures
        r == (a@ == b@),
{
    let n = a.unicode_len();
    let m = b.unicode_len();
    if n != m {
        return false;
    }
    let mut i: usize = 0;
    while i < n
        invariant
            n == a@.len(),
            m == b@.len(),
            n == m,
            i <= n,
            forall|j: int| 0 <= j < i ==> a@[j] == b@[j],
        decreases n - i,
    {
        if a.get_char(i) != b.get_char(i) {
            return false;
        }
        i = i + 1;
    }
    assert(a@ =~= b@);
    true
}

/// The stable text of an account type.
pub open spec fn type_text(t: AccountType) -> Seq<char> {
    match t {
        AccountType::Asset => "asset"@,
        AccountType::Liability => "liability"@,
        AccountType::Equity => "equity"@,
        AccountType::Revenue => "revenue"@,
        AccountType::Expense => "expense"@,
    }
}

/// What decoding `s` as an account type must give: the member whose text is
/// `s`, or an error carrying `s` when no member has that text.
pub open spec fn decodes_to_type(s: Seq<char>, r: Result<AccountType, InvalidEnumValue>) -> bool {
    match r {
        Ok(t) => type_text(t) == s,
        Err(e) => e is AccountType && invalid_text(e) == s && forall|t: AccountType| type_text(t) != s,
    }
}

impl AccountType {
    /// The stable lowercase text of this type.
    pub fn as_str(&self) -> (r: &'static str)
        ensures
            r@ == type_text(*self),
    {
        match self {
            AccountType::Asset => "asset",
            AccountType::Liability => "liability",
            AccountType::Equity => "equity",
            AccountType::Revenue => "revenue",
            AccountType::Expense => "expense",
        }
    }

    /// The stable lowercase text of this type, as an owned string.
    pub fn to_string(&self) -> (r: String)
        ensures
            r@ == type_text(*self),
    {
        String::from_str(self.as_str())
    }

    /// Decodes the stable text of an account type.
    pub fn from_str(s: &str) -> (r: Result<AccountType, InvalidEnumValue>)
        ensures
            decodes_to_type(s@, r),
    {
        if same_text(s, "asset") {
            return Ok(AccountType::Asset);
        }
        if same_text(s, "liability") {
            return Ok(AccountType::Liability);
        }
        if same_text(s, "equity") {
            return Ok(AccountType::Equity);
        }
        if same_text(s, "revenue") {
            return Ok(AccountType::Revenue);
        }
        if same_text(s, "expense") {
            return Ok(AccountType::Expense);
        }
        Err(InvalidEnumValue::AccountType(String::from_str(s)))
    }
}

/// Each type has its own text.
pub proof fn lemma_type_text_injective(a: AccountType, b: AccountType)
    ensures
        type_text(a) == type_text(b) ==> a == b,
{
    reveal_strlit("asset");
    reveal_strlit("liability");
    reveal_strlit("equity");
    reveal_strlit("revenue");
    reveal_strlit("expense");
    if type_text(a) == type_text(b) {
        assert(type_text(a).len() == type_text(b).len());
        assert(type_text(a)[0] == type_text(b)[0]);
    }
}

/// Decoding the text of a type gives that type back.
pub proof fn lemma_type_round_trip(t: AccountType, r: Result<AccountType, InvalidEnumValue>)
    requires
        decodes_to_type(type_text(t), r),
    ensures
        r == Ok::<AccountType, InvalidEnumValue>(t),
{
    match r {
        Ok(u) => lemma_type_text_injective(t, u),
        Err(e) => {},
    }
}

/// The ledger categories of the chart of accounts.
#[derive(Debug, Clone, Copy, PartialEq, Eq, Structural, Hash)]
pub enum AccountCategory {
    Cash,
    BankDeposit,
    FixedDeposit,
    AccountsReceivable,
    AccountsPayable,
    DepositsReceived,
    Borrowings,
    Capital,
    RetainedSurplus,
    TitheOffering,
    ThankOffering,
    SpecialOffering,
    BuildingOffering,
    InterestIncome,
    OtherRevenue,
    PersonnelExpense,
    UtilityExpense,
    CommunicationExpense,
    SuppliesExpense,
    WorshipExpense,
    EducationExpense,
    MissionExpense,
    MaintenanceExpense,
    OtherExpense,
}

/// The fixed classification of each category under one account type.
pub open spec fn category_type(c: AccountCategory) -> AccountType {
    match c {
        AccountCategory::Cash | AccountCategory::BankDeposit | AccountCategory::FixedDeposit | AccountCategory::AccountsReceivable => AccountType::Asset,
        AccountCategory::AccountsPayable | AccountCategory::DepositsReceived | AccountCategory::Borrowings => AccountType::Liability,
        AccountCategory::Capital | AccountCategory::RetainedSurplus => AccountType::Equity,
        AccountCategory::TitheOffering | AccountCategory::ThankOffering | AccountCategory::SpecialOffering | AccountCategory::BuildingOffering | AccountCategory::InterestIncome | AccountCategory::OtherRevenue => AccountType::Revenue,
        AccountCategory::PersonnelExpense | AccountCategory::UtilityExpense | AccountCategory::CommunicationExpense | AccountCategory::SuppliesExpense | AccountCategory::WorshipExpense | AccountCategory::EducationExpense | AccountCategory::MissionExpense | AccountCategory::MaintenanceExpense | AccountCategory::OtherExpense => AccountType::Expense,
    }
}

/// The stable text of a category.
pub open spec fn category_text(c: AccountCategory) -> Seq<char> {
    match c {
        AccountCategory::Cash => "cash"@,
        AccountCategory::BankDeposit => "bank_deposit"@,
        AccountCategory::FixedDeposit => "fixed_deposit"@,
        AccountCategory::AccountsReceivable => "accounts_receivable"@,
        AccountCategory::AccountsPayable => "accounts_payable"@,
        AccountCategory::DepositsReceived => "deposits_received"@,
        AccountCategory::Borrowings => "borrowings"@,
        AccountCategory::Capital => "capital"@,
        AccountCategory::RetainedSurplus => "retained_surplus"@,
        AccountCategory::TitheOffering => "tithe_offering"@,
        AccountCategory::ThankOffering => "thank_offering"@,
        AccountCategory::SpecialOffering => "special_offering"@,
        AccountCategory::BuildingOffering => "building_offering"@,
        AccountCategory::InterestIncome => "interest_income"@,
        AccountCategory::OtherRevenue => "other_revenue"@,
        AccountCategory::PersonnelExpense => "personnel_expense"@,
        AccountCategory::UtilityExpense => "utility_expense"@,
        AccountCategory::CommunicationExpense => "communication_expense"@,
        AccountCategory::SuppliesExpense => "supplies_expense"@,
        AccountCategory::WorshipExpense => "worship_expense"@,
        AccountCategory::EducationExpense => "education_expense"@,
        AccountCategory::MissionExpense => "mission_expense"@,
        AccountCategory::MaintenanceExpense => "maintenance_expense"@,
        AccountCategory::OtherExpense => "other_expense"@,
    }
}

/// What decoding `s` as a category must give: the member whose text is `s`,
/// or an error carrying `s` when no member has that text.
pub open spec fn decodes_to_category(s: Seq<char>, r: Result<AccountCategory, InvalidEnumValue>) -> bool {
    match r {
        Ok(c) => category_text(c) == s,
        Err(e) => e is AccountCategory && invalid_text(e) == s && forall|c: AccountCategory|
            category_text(c) != s,
    }
}

impl AccountCategory {
    /// The account type that this category belongs to.
    pub fn account_type(&self) -> (r: AccountType)
        ensures
            r == category_type(*self),
    {
        match self {
            AccountCategory::Cash | AccountCategory::BankDeposit | AccountCategory::FixedDeposit | AccountCategory::AccountsReceivable => AccountType::Asset,
            AccountCategory::AccountsPayable | AccountCategory::DepositsReceived | AccountCategory::Borrowings => AccountType::Liability,
            AccountCategory::Capital | AccountCategory::RetainedSurplus => AccountType::Equity,
            AccountCategory::TitheOffering | AccountCategory::ThankOffering | AccountCategory::SpecialOffering | AccountCategory::BuildingOffering | AccountCategory::InterestIncome | AccountCategory::OtherRevenue => AccountType::Revenue,
            AccountCategory::PersonnelExpense | AccountCategory::UtilityExpense | AccountCategory::CommunicationExpense | AccountCategory::SuppliesExpense | AccountCategory::WorshipExpense | AccountCategory::EducationExpense | AccountCategory::MissionExpense | AccountCategory::MaintenanceExpense | AccountCategory::OtherExpense => AccountType::Expense,
        }
    }

    /// The stable lowercase text of this category.
    pub fn as_str(&self) -> (r: &'static str)
        ensures
            r@ == category_text(*self),
    {
        match self {
            AccountCategory::Cash => "cash",
            AccountCategory::BankDeposit => "bank_deposit",
            AccountCategory::FixedDeposit => "fixed_deposit",
            AccountCategory::AccountsReceivable => "accounts_receivable",
            AccountCategory::AccountsPayable => "accounts_payable",
            AccountCategory::DepositsReceived => "deposits_received",
            AccountCategory::Borrowings => "borrowings",
            AccountCategory::Capital => "capital",
            AccountCategory::RetainedSurplus => "retained_surplus",
            AccountCategory::TitheOffering => "tithe_offering",
            AccountCategory::ThankOffering => "thank_offering",
            AccountCategory::SpecialOffering => "special_offering",
            AccountCategory::BuildingOffering => "building_offering",
            AccountCategory::InterestIncome => "interest_income",
            AccountCategory::OtherRevenue => "other_revenue",
            AccountCategory::PersonnelExpense => "personnel_expense",
            AccountCategory::UtilityExpense => "utility_expense",
            AccountCategory::CommunicationExpense => "communication_expense",
            AccountCategory::SuppliesExpense => "supplies_expense",
            AccountCategory::WorshipExpense => "worship_expense",
            AccountCategory::EducationExpense => "education_expense",
            AccountCategory::MissionExpense => "mission_expense",
            AccountCategory::MaintenanceExpense => "maintenance_expense",
            AccountCategory::OtherExpense => "other_expense",
        }
    }

    /// The stable lowercase text of this category, as an owned string.
    pub fn to_string(&self) -> (r: String)
        ensures
            r@ == category_text(*self),
    {
        String::from_str(self.as_str())
    }

    /// Decodes the stable text of a category.
    pub fn from_str(s: &str) -> (r: Result<AccountCategory, InvalidEnumValue>)
        ensures
            decodes_to_category(s@, r),
    {
        if same_text(s, "cash") {
            return Ok(AccountCategory::Cash);
        }
        if same_text(s, "bank_deposit") {
            return Ok(AccountCategory::BankDeposit);
        }
        if same_text(s, "fixed_deposit") {
            return Ok(AccountCategory::FixedDeposit);
        }
        if same_text(s, "accounts_receivable") {
            return Ok(AccountCategory::AccountsReceivable);
        }
        if same_text(s, "accounts_payable") {
            return Ok(AccountCategory::AccountsPayable);
        }
        if same_text(s, "deposits_received") {
            return Ok(AccountCategory::DepositsReceived);
        }
        if same_text(s, "borrowings") {
            return Ok(AccountCategory::Borrowings);
        }
        if same_text(s, "capital") {
            return Ok(AccountCategory::Capital);
        }
        if same_text(s, "retained_surplus") {
            return Ok(AccountCategory::RetainedSurplus);
        }
        if same_text(s, "tithe_offering") {
            return Ok(AccountCategory::TitheOffering);
        }
        if same_text(s, "thank_offering") {
            return Ok(AccountCategory::ThankOffering);
        }
        if same_text(s, "special_offering") {
            return Ok(AccountCategory::SpecialOffering);
        }
        if same_text(s, "building_offering") {
            return Ok(AccountCategory::BuildingOffering);
        }
        if same_text(s, "interest_income") {
            return Ok(AccountCategory::InterestIncome);
        }
        if same_text(s, "other_revenue") {
            return Ok(AccountCategory::OtherRevenue);
        }
        if same_text(s, "personnel_expense") {
            return Ok(AccountCategory::PersonnelExpense);
        }
        if same_text(s, "utility_expense") {
            return Ok(AccountCategory::UtilityExpense);
        }
        if same_text(s, "communication_expense") {
            return Ok(AccountCategory::CommunicationExpense);
        }
        if same_text(s, "supplies_expense") {
            return Ok(AccountCategory::SuppliesExpense);
        }
        if same_text(s, "worship_expense") {
            return Ok(AccountCategory::WorshipExpense);
        }
        if same_text(s, "education_expense") {
            return Ok(AccountCategory::EducationExpense);
        }
        if same_text(s, "mission_expense") {
            return Ok(AccountCategory::MissionExpense);
        }
        if same_text(s, "maintenance_expense") {
            return Ok(AccountCategory::MaintenanceExpense);
        }
        if same_text(s, "other_expense") {
            return Ok(AccountCategory::OtherExpense);
        }
        Err(InvalidEnumValue::AccountCategory(String::from_str(s)))
    }
}

/// Each category has its own text.
pub proof fn lemma_category_text_injective(a: AccountCategory, b: AccountCategory)
    ensures
        category_text(a) == category_text(b) ==> a == b,
{
    reveal_strlit("cash");
    reveal_strlit("bank_deposit");
    reveal_strlit("fixed_deposit");
    reveal_strlit("accounts_receivable");
    reveal_strlit("accounts_payable");
    reveal_strlit("deposits_received");
    reveal_strlit("borrowings");
    reveal_strlit("capital");
    reveal_strlit("retained_surplus");
    reveal_strlit("tithe_offering");
    reveal_strlit("thank_offering");
    reveal_strlit("special_offering");
    reveal_strlit("building_offering");
    reveal_strlit("interest_income");
    reveal_strlit("other_revenue");
    reveal_strlit("personnel_expense");
    reveal_strlit("utility_expense");
    reveal_strlit("communication_expense");
    reveal_strlit("supplies_expense");
    reveal_strlit("worship_expense");
    reveal_strlit("education_expense");
    reveal_strlit("mission_expense");
    reveal_strlit("maintenance_expense");
    reveal_strlit("other_expense");
    if category_text(a) == category_text(b) {
        assert(category_text(a).len() == category_text(b).len());
        assert(category_text(a)[0] == category_text(b)[0]);
        assert(category_text(a)[1] == category_text(b)[1]);
        assert(category_text(a)[6] == category_text(b)[6]);
    }
}

/// Decoding the text of a category gives that category back.
pub proof fn lemma_category_round_trip(c: AccountCategory, r: Result<AccountCategory, InvalidEnumValue>)
    requires
        decodes_to_category(category_text(c), r),
    ensures
        r == Ok::<AccountCategory, InvalidEnumValue>(c),
{
    match r {
        Ok(u) => lemma_category_text_injective(c, u),
        Err(e) => {},
    }
}

} // verus!
